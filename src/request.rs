use vstd::prelude::*;

use crate::method::{spec_carries_body, HttpMethod};

verus! {

#[verifier::external_type_specification]
#[verifier::external_body]
pub struct ExUrl(url::Url);

#[verifier::external_type_specification]
#[verifier::external_body]
pub struct ExUrlParseError(url::ParseError);

/// Whether `text` is a well-formed absolute URL.
pub uninterp spec fn url_parses(text: Seq<char>) -> bool;

/// Relies on url::Url::parse: it parses an absolute URL, and its success
/// depends on the text alone.
#[verifier::external_body]
fn parse_url(text: &str) -> (r: Result<url::Url, url::ParseError>)
    ensures
        r is Ok == url_parses(text@),
{
    url::Url::parse(text)
}

/// Whether `text` may be sent to: it must be a well-formed absolute URL.
pub fn is_absolute_url(text: &str) -> (r: bool)
    ensures
        r == url_parses(text@),
{
    match parse_url(text) {
        Ok(_) => true,
        Err(_) => false,
    }
}

/// A key/value pair as typed into the header or query editor.
pub type Pair = (String, String);

/// Whether a pair is sent at all: a pair whose key is empty is dropped.
pub open spec fn is_keyed(p: Pair) -> bool {
    p.0@.len() > 0
}

/// The pairs of `s` that are sent, in their order.
pub open spec fn keyed(s: Seq<Pair>) -> Seq<Pair> {
    s.filter(|p: Pair| is_keyed(p))
}

/// The snapshot of the request editor taken when a request is sent.
pub struct RequestSpec {
    pub method: HttpMethod,
    pub url: String,
    pub headers: Vec<Pair>,
    pub queries: Vec<Pair>,
    pub body: String,
}

/// What is handed to the HTTP client: the parts of a `RequestSpec` that are
/// actually transmitted.
pub struct PreparedRequest {
    pub method: HttpMethod,
    pub url: String,
    /// Headers with a non-empty key, in editor order.
    pub headers: Vec<Pair>,
    /// Query parameters with a non-empty key, in editor order.
    pub query: Vec<Pair>,
    /// The body, present exactly for the methods that carry one.
    pub body: Option<String>,
}

/// Whether `p` is what goes out for the snapshot `s`: the same method and
/// URL, the keyed headers and query parameters in their order, and the body
/// exactly for the methods that carry one.
pub open spec fn transmits(p: PreparedRequest, s: RequestSpec) -> bool {
    &&& p.method == s.method
    &&& p.url == s.url
    &&& p.headers@ == keyed(s.headers@)
    &&& p.query@ == keyed(s.queries@)
    &&& p.body == if spec_carries_body(s.method) {
        Some(s.body)
    } else {
        None
    }
}

/// The pairs of `pairs` whose key is not empty, in their order.
fn keep_keyed(pairs: &Vec<Pair>) -> (r: Vec<Pair>)
    ensures
        r@ == keyed(pairs@),
{
    let mut out: Vec<Pair> = Vec::new();
    let n: usize = pairs.len();
    for i in 0..n
        invariant
            n == pairs@.len(),
            out@ == keyed(pairs@.subrange(0, i as int)),
    {
        let p = &pairs[i];
        let ghost prefix = pairs@.subrange(0, i + 1);
        proof {
            assert(prefix.drop_last() =~= pairs@.subrange(0, i as int));
            assert(prefix.last() == *p);
            reveal(Seq::filter);
        }
        if !p.0.as_str().is_empty() {
            let kept = (p.0.clone(), p.1.clone());
            assert(kept == *p);
            out.push(kept);
        }
    }
    proof {
        assert(pairs@.subrange(0, n as int) =~= pairs@);
    }
    out
}

impl RequestSpec {
    /// The request as it goes out: headers and query parameters with an
    /// empty key are dropped, and the body is attached only for POST, PUT and
    /// PATCH, verbatim.
    pub fn prepare(&self) -> (r: PreparedRequest)
        ensures
            r.method == self.method,
            r.url == self.url,
            r.headers@ == keyed(self.headers@),
            r.query@ == keyed(self.queries@),
            spec_carries_body(self.method) ==> r.body == Some(self.body),
            !spec_carries_body(self.method) ==> r.body is None,
            transmits(r, *self),
    {
        let body = if self.method.carries_body() {
            Some(self.body.clone())
        } else {
            None
        };
        PreparedRequest {
            method: self.method,
            url: self.url.clone(),
            headers: keep_keyed(&self.headers),
            query: keep_keyed(&self.queries),
            body,
        }
    }
}

} // verus!
