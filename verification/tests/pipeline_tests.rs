use marksman::errors::PipelineError;
use marksman::pipeline::{MediaPlan, Pipeline};

fn components(parts: &[&str]) -> Vec<String> {
    parts.iter().map(|p| String::from(*p)).collect()
}

#[test]
fn article_scenario_renders_title_and_body() {
    let mut p = Pipeline::new(String::from("{{title}}: {{article}}"), true, true);
    let plan = p
        .process_article(&components(&["a.md"]), b"---\ntitle: Hi\n---\nBody")
        .unwrap();
    assert_eq!(plan.out_components, components(&["a.html"]));
    assert_eq!(plan.url, "a.html");
    assert!(plan.html.starts_with("Hi: "));
    assert!(plan.html.contains("Body"));
}

#[test]
fn unescaped_article_embeds_the_html_fragment() {
    let mut p = Pipeline::new(String::from("{{title}}: {{{article}}}"), true, true);
    let plan = p
        .process_article(&components(&["a.md"]), b"---\ntitle: Hi\n---\nBody")
        .unwrap();
    assert_eq!(plan.html, "Hi: <p>Body</p>\n");
}

#[test]
fn computed_fields_overwrite_front_matter_fields() {
    let mut p = Pipeline::new(String::from("{{article}}|{{url}}"), true, true);
    let content = b"---\narticle: bogus\nurl: bogus\n---\n";
    let plan = p.process_article(&components(&["a.md"]), content).unwrap();
    assert!(!plan.html.contains("bogus"));
    assert!(plan.html.contains("a.html"));
}

#[test]
fn digest_holds_one_entry_per_article_in_traversal_order() {
    let mut p = Pipeline::new(String::from("x"), true, true);
    p.process_article(&components(&["one.md"]), b"---\ntitle: First\n---\nA")
        .unwrap();
    p.process_article(&components(&["two.md"]), b"---\ntitle: Second\n---\nB")
        .unwrap();
    let text = p.flush_digest().unwrap();
    let value: serde_json::Value = serde_json::from_str(&text).unwrap();
    let entries = value.as_array().unwrap();
    assert_eq!(entries.len(), 2);
    assert_eq!(
        entries[0].get("title").unwrap(),
        &serde_json::Value::String(String::from("First"))
    );
    assert_eq!(
        entries[0].get("url").unwrap(),
        &serde_json::Value::String(String::from("one.html"))
    );
    assert_eq!(
        entries[1].get("title").unwrap(),
        &serde_json::Value::String(String::from("Second"))
    );
    assert_eq!(
        entries[1].get("article").unwrap(),
        &serde_json::Value::String(String::from("<p>B</p>\n"))
    );
}

#[test]
fn disabled_digest_writes_nothing() {
    let mut p = Pipeline::new(String::from("x"), true, false);
    p.process_article(&components(&["one.md"]), b"A").unwrap();
    assert_eq!(p.flush_digest(), None);
}

#[test]
fn failed_article_leaves_no_digest_entry() {
    let mut p = Pipeline::new(String::from("{{#if}}"), true, true);
    let r = p.process_article(&components(&["a.md"]), b"Body");
    assert_eq!(r.err(), Some(PipelineError::Render));
    let text = p.flush_digest().unwrap();
    assert_eq!(text, "[]");
}

#[test]
fn non_utf8_body_is_fatal() {
    let mut p = Pipeline::new(String::from("x"), true, true);
    let r = p.process_article(&components(&["a.md"]), &[0xff, 0xfe, 0xfd]);
    assert_eq!(r.err(), Some(PipelineError::NotUtf8));
}

#[test]
fn bad_component_in_article_path_is_fatal() {
    let mut p = Pipeline::new(String::from("x"), true, true);
    let r = p.process_article(&components(&["..", "a.md"]), b"Body");
    assert_eq!(r.err(), Some(PipelineError::BadComponent));
}

#[test]
fn media_copy_enabled_plans_a_copy() {
    let mut p = Pipeline::new(String::from("x"), true, true);
    let plan = p.process_media(&components(&["b.txt"])).unwrap();
    assert_eq!(plan, MediaPlan::Copy { make_dir: true });
}

#[test]
fn media_copy_disabled_skips_and_creates_no_directory() {
    let mut p = Pipeline::new(String::from("x"), false, true);
    let plan = p.process_media(&components(&["sub", "b.txt"])).unwrap();
    assert_eq!(plan, MediaPlan::Skip);
    let plan2 = p.process_media(&components(&["sub", "c.txt"])).unwrap();
    assert_eq!(plan2, MediaPlan::Skip);
}

#[test]
fn media_with_bad_component_is_fatal() {
    let mut p = Pipeline::new(String::from("x"), true, true);
    let r = p.process_media(&components(&["..", "b.txt"]));
    assert_eq!(r, Err(PipelineError::BadComponent));
}

#[test]
fn ensure_dir_is_idempotent() {
    let mut p = Pipeline::new(String::from("x"), true, true);
    assert!(p.ensure_dir(String::from("sub")));
    assert!(!p.ensure_dir(String::from("sub")));
    assert!(p.ensure_dir(String::from("sub/deeper")));
    assert!(!p.ensure_dir(String::from("sub/deeper")));
}

#[test]
fn two_articles_in_one_subdirectory_create_it_once() {
    let mut p = Pipeline::new(String::from("x"), true, true);
    let first = p
        .process_article(&components(&["sub", "a.md"]), b"A")
        .unwrap();
    let second = p
        .process_article(&components(&["sub", "b.md"]), b"B")
        .unwrap();
    assert!(first.make_dir);
    assert!(!second.make_dir);
}

#[test]
fn article_and_media_share_their_directory_creation() {
    let mut p = Pipeline::new(String::from("x"), true, true);
    let article = p
        .process_article(&components(&["sub", "a.md"]), b"A")
        .unwrap();
    assert!(article.make_dir);
    let media = p.process_media(&components(&["sub", "b.txt"])).unwrap();
    assert_eq!(media, MediaPlan::Copy { make_dir: false });
}

#[test]
fn nested_directories_map_to_slash_separated_urls() {
    let mut p = Pipeline::new(String::from("{{url}}"), true, true);
    let plan = p
        .process_article(&components(&["sub", "deeper", "a.md"]), b"Body")
        .unwrap();
    assert_eq!(
        plan.out_components,
        components(&["sub", "deeper", "a.html"])
    );
    assert_eq!(plan.url, "sub/deeper/a.html");
    assert_eq!(plan.html, "sub/deeper/a.html");
    assert!(plan.make_dir);
    let sibling = p
        .process_article(&components(&["sub", "other.md"]), b"Body")
        .unwrap();
    assert!(sibling.make_dir);
}

#[test]
fn error_descriptions_name_the_failure() {
    assert_eq!(PipelineError::NoExtension.describe(), "file has no extension");
    assert_eq!(
        PipelineError::Render.describe(),
        "failed to render template"
    );
}
