use marksman::errors::PipelineError;
use marksman::paths::{
    article_output_name, check_components, classify, component_ok, join_url, map_article,
    FileKind,
};

#[test]
fn markdown_extensions_classify_as_article() {
    assert_eq!(classify("a.md"), Ok(FileKind::Article));
    assert_eq!(classify("notes.markdown"), Ok(FileKind::Article));
}

#[test]
fn other_extensions_classify_as_media() {
    assert_eq!(classify("photo.png"), Ok(FileKind::Media));
    assert_eq!(classify("archive.tar.gz"), Ok(FileKind::Media));
    assert_eq!(classify("upper.MD"), Ok(FileKind::Media));
    assert_eq!(classify("trailing."), Ok(FileKind::Media));
}

#[test]
fn missing_extension_is_an_error() {
    assert_eq!(classify("README"), Err(PipelineError::NoExtension));
    assert_eq!(classify(".gitignore"), Err(PipelineError::NoExtension));
    assert_eq!(classify(""), Err(PipelineError::NoExtension));
}

#[test]
fn extension_swap_keeps_the_stem() {
    assert_eq!(article_output_name("a.md"), "a.html");
    assert_eq!(article_output_name("notes.markdown"), "notes.html");
    assert_eq!(article_output_name("dotted.name.md"), "dotted.name.html");
}

#[test]
fn url_uses_forward_slashes_only() {
    let parts = vec![
        String::from("sub"),
        String::from("deeper"),
        String::from("a.html"),
    ];
    assert_eq!(join_url(&parts), "sub/deeper/a.html");
    let single = vec![String::from("a.html")];
    assert_eq!(join_url(&single), "a.html");
    let none: Vec<String> = Vec::new();
    assert_eq!(join_url(&none), "");
}

#[test]
fn map_article_swaps_extension_and_builds_url() {
    let parts = vec![String::from("sub"), String::from("a.md")];
    let (out, url) = map_article(&parts).unwrap();
    assert_eq!(out, vec![String::from("sub"), String::from("a.html")]);
    assert_eq!(url, "sub/a.html");
}

#[test]
fn parent_reference_component_is_rejected() {
    let parts = vec![String::from(".."), String::from("a.md")];
    assert_eq!(map_article(&parts), Err(PipelineError::BadComponent));
}

#[test]
fn component_checks_reject_separators_and_references() {
    assert!(component_ok("plain-name.txt"));
    assert!(!component_ok(""));
    assert!(!component_ok("."));
    assert!(!component_ok(".."));
    assert!(!component_ok("a/b"));
    assert!(!component_ok("a\\b"));
    assert!(check_components(&vec![String::from("a"), String::from("b.txt")]));
    assert!(!check_components(&vec![String::from("a"), String::from("..")]));
}
