use snooze::gui_state::{GuiAppState, RequestState, ResponseState};

#[test]
fn new_window_is_blank() {
    let w = GuiAppState::new();
    assert_eq!(w.request_state.url, "");
    assert_eq!(w.request_state.verb, 0);
    assert!(w.request_state.headers.is_empty());
    assert_eq!(w.response_state.status_code, 0);
    assert_eq!(w.response_state.time_in_ms, 0);
    assert_eq!(w.response_state.body, "");
}

#[test]
fn request_access_edits_only_the_request() {
    let mut w = GuiAppState::new();
    w.get_request_state_mut().url = "http://example.com".to_owned();
    w.get_request_state_mut().verb = 3;
    assert_eq!(w.request_state.url, "http://example.com");
    assert_eq!(w.request_state.verb, 3);
    assert_eq!(w.response_state.body, "");
}

#[test]
fn response_access_edits_only_the_response() {
    let mut w = GuiAppState::new();
    w.get_response_state_mut().status_code = 404;
    assert_eq!(w.response_state.status_code, 404);
    assert_eq!(w.request_state.url, "");
}

#[test]
fn blank_parts() {
    let r = RequestState::new();
    assert_eq!(r.custom_verb, "");
    assert_eq!(r.body, "");
    let p = ResponseState::new();
    assert!(p.headers.is_empty());
}
