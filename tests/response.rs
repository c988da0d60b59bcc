use snooze::interpret::interpret;
use snooze::transport::TransportOutcome;

#[test]
fn json_body_gives_a_tree() {
    let tree = interpret("{\"a\":1}").expect("valid JSON");
    let mut map = serde_json::Map::new();
    map.insert("a".to_owned(), serde_json::Value::from(1));
    assert_eq!(tree, serde_json::Value::Object(map));
}

#[test]
fn scalar_and_array_bodies_give_trees() {
    assert_eq!(interpret("42"), Some(serde_json::Value::from(42)));
    assert_eq!(
        interpret("[true, null]"),
        Some(serde_json::Value::Array(vec![serde_json::Value::Bool(true), serde_json::Value::Null]))
    );
}

#[test]
fn non_json_body_gives_no_tree() {
    assert_eq!(interpret("not json"), None);
    assert_eq!(interpret(""), None);
}

#[test]
fn partial_json_gives_no_tree() {
    assert_eq!(interpret("{\"a\":1} trailing"), None);
    assert_eq!(interpret("{\"a\":"), None);
}

#[test]
fn body_text_is_shown_as_is() {
    assert_eq!(TransportOutcome::Body("hello".to_owned()).into_text(), "hello");
}

#[test]
fn request_failure_text() {
    let text = TransportOutcome::RequestFailed("connection refused".to_owned()).into_text();
    assert_eq!(text, "request error: connection refused");
}

#[test]
fn body_read_failure_text() {
    let text = TransportOutcome::BodyUnreadable("unexpected eof".to_owned()).into_text();
    assert_eq!(text, "error reading response: unexpected eof");
}
