use vstd::prelude::*;
use vstd::string::StringExecFns;

verus! {

/// How a request ended, as the worker reports it. Every failure is data:
/// the worker never panics across the thread boundary.
pub enum TransportOutcome {
    /// The full response body, as text.
    Body(String),
    /// The request failed at the network layer (connection, DNS, TLS,
    /// timeout); the text describes the failure.
    RequestFailed(String),
    /// A response arrived but its body could not be read; the text describes
    /// the failure.
    BodyUnreadable(String),
}

/// Prefix of the text shown for a failed request.
pub open spec fn request_error_prefix() -> Seq<char> {
    "request error: "@
}

/// Prefix of the text shown for a body that could not be read.
pub open spec fn read_error_prefix() -> Seq<char> {
    "error reading response: "@
}

/// The text the response area shows for an outcome.
pub open spec fn outcome_text(o: TransportOutcome) -> Seq<char> {
    match o {
        TransportOutcome::Body(t) => t@,
        TransportOutcome::RequestFailed(d) => request_error_prefix() + d@,
        TransportOutcome::BodyUnreadable(d) => read_error_prefix() + d@,
    }
}

impl TransportOutcome {
    /// The text the response area shows for this outcome: the body itself,
    /// or the failure description behind a prefix that names the stage that
    /// failed.
    pub fn into_text(self) -> (r: String)
        ensures
            r@ == outcome_text(self),
    {
        match self {
            TransportOutcome::Body(t) => t,
            TransportOutcome::RequestFailed(d) => String::from_str("request error: ").concat(
                d.as_str(),
            ),
            TransportOutcome::BodyUnreadable(d) => String::from_str(
                "error reading response: ",
            ).concat(d.as_str()),
        }
    }
}

/// What the worker of one request sends back: produced exactly once per
/// request, tagged with the request's sequence number.
pub struct TransportResult {
    /// The sequence number the request was dispatched under.
    pub seq: u64,
    pub outcome: TransportOutcome,
    /// Wall-clock time from just before dispatch to just after the body was
    /// read.
    pub elapsed: std::time::Duration,
}

} // verus!
