use marksman::front_matter::extract;

fn string_value(s: &str) -> serde_json::Value {
    serde_json::Value::String(String::from(s))
}

#[test]
fn no_fence_returns_input_unchanged() {
    let input = b"Just a body\nwith two lines\n";
    let (body, fm) = extract(input);
    assert_eq!(body, input.to_vec());
    assert!(fm.fields.is_empty());
}

#[test]
fn short_dash_line_is_not_a_fence() {
    let input = b"--\ntitle: Hi\n--\nBody";
    let (body, fm) = extract(input);
    assert_eq!(body, input.to_vec());
    assert!(fm.fields.is_empty());
}

#[test]
fn fence_without_terminator_is_not_a_fence() {
    let input = b"---";
    let (body, fm) = extract(input);
    assert_eq!(body, input.to_vec());
    assert!(fm.fields.is_empty());
}

#[test]
fn well_formed_block_yields_fields_and_body() {
    let input = b"---\ntitle: Hi\n---\nBody";
    let (body, fm) = extract(input);
    assert_eq!(body, b"Body".to_vec());
    assert_eq!(fm.fields.len(), 1);
    assert_eq!(fm.fields[0].0, "title");
    assert_eq!(fm.fields[0].1, string_value("Hi"));
}

#[test]
fn longer_dash_runs_and_crlf_terminators_close_the_fence() {
    let input = b"-----\r\ntitle: Hi\r\n----\r\nBody\r\n";
    let (body, fm) = extract(input);
    assert_eq!(body, b"Body\r\n".to_vec());
    assert_eq!(fm.fields.len(), 1);
    assert_eq!(fm.fields[0].0, "title");
    assert_eq!(fm.fields[0].1, string_value("Hi"));
}

#[test]
fn unclosed_fence_returns_input_unchanged() {
    let input = b"---\ntitle: Hi\nBody with no closing fence\n";
    let (body, fm) = extract(input);
    assert_eq!(body, input.to_vec());
    assert!(fm.fields.is_empty());
}

#[test]
fn unparseable_block_returns_input_unchanged() {
    let input = b"---\n[unclosed\n---\nBody";
    let (body, fm) = extract(input);
    assert_eq!(body, input.to_vec());
    assert!(fm.fields.is_empty());
}

#[test]
fn non_mapping_block_yields_empty_front_matter() {
    let input = b"---\n- one\n- two\n---\nBody";
    let (body, fm) = extract(input);
    assert_eq!(body, b"Body".to_vec());
    assert!(fm.fields.is_empty());
}

#[test]
fn first_dash_line_closes_the_block_greedily() {
    let input = b"---\ntitle: Hi\n---\nmore: stuff\n---\nBody";
    let (body, fm) = extract(input);
    assert_eq!(body, b"more: stuff\n---\nBody".to_vec());
    assert_eq!(fm.fields.len(), 1);
    assert_eq!(fm.fields[0].0, "title");
}

#[test]
fn several_fields_keep_their_values() {
    let input = b"---\ntitle: Hi\ncount: 3\ndraft: true\n---\nBody";
    let (body, fm) = extract(input);
    assert_eq!(body, b"Body".to_vec());
    assert_eq!(fm.fields.len(), 3);
    let titles: Vec<&str> = fm.fields.iter().map(|p| p.0.as_str()).collect();
    assert!(titles.contains(&"title"));
    assert!(titles.contains(&"count"));
    assert!(titles.contains(&"draft"));
    for (k, v) in &fm.fields {
        match k.as_str() {
            "title" => assert_eq!(*v, string_value("Hi")),
            "count" => assert_eq!(*v, serde_json::Value::from(3u64)),
            "draft" => assert_eq!(*v, serde_json::Value::Bool(true)),
            _ => panic!("unexpected field"),
        }
    }
}

#[test]
fn closing_dashes_without_terminator_do_not_close() {
    let input = b"---\ntitle: Hi\n---";
    let (body, fm) = extract(input);
    assert_eq!(body, input.to_vec());
    assert!(fm.fields.is_empty());
}

#[test]
fn indented_dash_line_does_not_close() {
    let input = b"---\ntitle: Hi\n ---\nBody";
    let (body, fm) = extract(input);
    assert_eq!(body, input.to_vec());
    assert!(fm.fields.is_empty());
}

#[test]
fn empty_block_yields_empty_front_matter_and_consumes_fence() {
    let input = b"---\n---\nBody";
    let (body, fm) = extract(input);
    assert_eq!(body, b"Body".to_vec());
    assert!(fm.fields.is_empty());
}
