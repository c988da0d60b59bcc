use vstd::prelude::*;

verus! {

/// The editor contents of one request window of the multi-window layout.
pub struct RequestState {
    pub url: String,
    /// Index of the selected method in the window's method list.
    pub verb: u8,
    /// A method name the user typed in place of one of the list.
    pub custom_verb: String,
    pub headers: Vec<String>,
    pub body: String,
}

/// An empty request with the first method selected.
pub open spec fn is_blank_request(r: RequestState) -> bool {
    &&& r.url@ == Seq::<char>::empty()
    &&& r.verb == 0
    &&& r.custom_verb@ == Seq::<char>::empty()
    &&& r.headers@ == Seq::<String>::empty()
    &&& r.body@ == Seq::<char>::empty()
}

impl RequestState {
    /// An empty request with the first method selected.
    pub fn new() -> (r: RequestState)
        ensures
            is_blank_request(r),
    {
        RequestState {
            url: String::new(),
            verb: 0,
            custom_verb: String::new(),
            headers: Vec::new(),
            body: String::new(),
        }
    }
}

/// The last response shown in one request window.
pub struct ResponseState {
    pub status_code: u16,
    pub headers: Vec<String>,
    pub body: String,
    pub time_in_ms: u32,
}

/// No response yet: status 0, no headers, empty body, no time.
pub open spec fn is_blank_response(r: ResponseState) -> bool {
    &&& r.status_code == 0
    &&& r.headers@ == Seq::<String>::empty()
    &&& r.body@ == Seq::<char>::empty()
    &&& r.time_in_ms == 0
}

impl ResponseState {
    /// No response yet: status 0, no headers, empty body, no time.
    pub fn new() -> (r: ResponseState)
        ensures
            is_blank_response(r),
    {
        ResponseState { status_code: 0, headers: Vec::new(), body: String::new(), time_in_ms: 0 }
    }
}

/// The request and response of one request window.
pub struct GuiAppState {
    pub request_state: RequestState,
    pub response_state: ResponseState,
}

impl GuiAppState {
    /// A window with an empty request and no response.
    pub fn new() -> (r: GuiAppState)
        ensures
            is_blank_request(r.request_state),
            is_blank_response(r.response_state),
    {
        GuiAppState { request_state: RequestState::new(), response_state: ResponseState::new() }
    }

    /// Write access to the request, leaving the response as it is.
    pub fn get_request_state_mut(&mut self) -> (r: &mut RequestState)
        ensures
            *r == old(self).request_state,
            final(self).request_state == *final(r),
            final(self).response_state == old(self).response_state,
    {
        &mut self.request_state
    }

    /// Write access to the response, leaving the request as it is.
    pub fn get_response_state_mut(&mut self) -> (r: &mut ResponseState)
        ensures
            *r == old(self).response_state,
            final(self).response_state == *final(r),
            final(self).request_state == old(self).request_state,
    {
        &mut self.response_state
    }
}

} // verus!
