use snooze::method::HttpMethod;
use snooze::request::{is_absolute_url, RequestSpec};

fn pair(k: &str, v: &str) -> (String, String) {
    (k.to_owned(), v.to_owned())
}

fn spec(method: HttpMethod, body: &str) -> RequestSpec {
    RequestSpec {
        method,
        url: "http://example.com/api".to_owned(),
        headers: vec![pair("", "x"), pair("Accept", "json")],
        queries: vec![pair("page", "2"), pair("", "ignored"), pair("q", "")],
        body: body.to_owned(),
    }
}

#[test]
fn empty_keyed_header_is_dropped() {
    let prepared = spec(HttpMethod::GET, "").prepare();
    assert_eq!(prepared.headers, vec![pair("Accept", "json")]);
}

#[test]
fn empty_keyed_query_is_dropped_and_order_kept() {
    let prepared = spec(HttpMethod::GET, "").prepare();
    assert_eq!(prepared.query, vec![pair("page", "2"), pair("q", "")]);
}

#[test]
fn all_blank_rows_send_nothing() {
    let s = RequestSpec {
        method: HttpMethod::POST,
        url: "http://example.com".to_owned(),
        headers: vec![pair("", ""), pair("", "v")],
        queries: vec![pair("", "")],
        body: String::new(),
    };
    let prepared = s.prepare();
    assert!(prepared.headers.is_empty());
    assert!(prepared.query.is_empty());
}

#[test]
fn bodyless_methods_attach_no_body() {
    for m in [HttpMethod::GET, HttpMethod::HEAD, HttpMethod::OPTIONS, HttpMethod::DELETE] {
        let prepared = spec(m, "{\"k\": true}").prepare();
        assert_eq!(prepared.method, m);
        assert_eq!(prepared.body, None);
    }
}

#[test]
fn body_methods_attach_body_verbatim() {
    for m in [HttpMethod::POST, HttpMethod::PUT, HttpMethod::PATCH] {
        let prepared = spec(m, "  {\"k\": true}\n").prepare();
        assert_eq!(prepared.method, m);
        assert_eq!(prepared.body, Some("  {\"k\": true}\n".to_owned()));
    }
}

#[test]
fn prepared_url_is_unchanged() {
    let prepared = spec(HttpMethod::PUT, "").prepare();
    assert_eq!(prepared.url, "http://example.com/api");
}

#[test]
fn carries_body_only_for_post_put_patch() {
    assert!(HttpMethod::POST.carries_body());
    assert!(HttpMethod::PUT.carries_body());
    assert!(HttpMethod::PATCH.carries_body());
    assert!(!HttpMethod::GET.carries_body());
    assert!(!HttpMethod::HEAD.carries_body());
    assert!(!HttpMethod::OPTIONS.carries_body());
    assert!(!HttpMethod::DELETE.carries_body());
}

#[test]
fn method_names() {
    assert_eq!(HttpMethod::GET.name(), "GET");
    assert_eq!(HttpMethod::OPTIONS.name(), "OPTIONS");
    assert_eq!(HttpMethod::PATCH.name(), "PATCH");
    assert_eq!(HttpMethod::default(), HttpMethod::GET);
}

#[test]
fn absolute_urls_are_accepted() {
    assert!(is_absolute_url("http://example.com"));
    assert!(is_absolute_url("https://api.example.com:8443/v1?x=1"));
}

#[test]
fn malformed_urls_are_rejected() {
    assert!(!is_absolute_url("not a url"));
    assert!(!is_absolute_url(""));
    assert!(!is_absolute_url("/relative/path"));
}
