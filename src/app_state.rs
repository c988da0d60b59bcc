use vstd::prelude::*;
use vstd::string::StringExecFns;

use crate::interpret::{interpret, json_parses};
use crate::method::{spec_method_name, HttpMethod};
use crate::request::{is_absolute_url, transmits, url_parses, Pair, PreparedRequest, RequestSpec};
use crate::transport::{outcome_text, TransportOutcome, TransportResult};

verus! {

/// The editor shown under the URL field.
#[derive(Debug, Clone, Copy, PartialEq, Eq, Structural)]
pub enum EditorTab {
    Headers,
    Body,
    Query,
}

/// The sequence number that follows `n`. Numbers wrap around after
/// `u64::MAX`, so two requests issued one after the other never share one.
pub open spec fn next_seq(n: u64) -> u64 {
    if n == u64::MAX {
        0
    } else {
        (n + 1) as u64
    }
}

/// A request handed to a worker: the transmitted parts of the request
/// snapshot, tagged with the sequence number its result must carry.
pub struct Dispatch {
    pub seq: u64,
    pub request: PreparedRequest,
}

/// The long-lived state of the tester, mutated only on the UI thread.
pub struct AppState {
    /// The request editor: method, URL, headers, query parameters, body.
    pub request: RequestSpec,
    /// The text the response area shows.
    pub response_text: String,
    /// The structured tree of the last response, when its body is JSON.
    pub parsed_json: Option<serde_json::Value>,
    /// How long the last completed request took.
    pub last_duration: Option<std::time::Duration>,
    pub selected_tab: EditorTab,
    /// The filter text of the JSON tree's search field.
    pub search_input: String,
    /// The sequence number of the request in flight, if one is.
    pub in_flight: Option<u64>,
    /// The sequence number given to the most recently issued request.
    pub last_seq: u64,
}

/// What the state means, with the parsed tree reduced to whether there is one.
pub struct AppView {
    pub request: RequestSpec,
    pub response_text: Seq<char>,
    pub has_tree: bool,
    pub last_duration: Option<std::time::Duration>,
    pub selected_tab: EditorTab,
    pub search_input: Seq<char>,
    pub in_flight: Option<u64>,
    pub last_seq: u64,
}

impl View for AppState {
    type V = AppView;

    open spec fn view(&self) -> AppView {
        AppView {
            request: self.request,
            response_text: self.response_text@,
            has_tree: self.parsed_json is Some,
            last_duration: self.last_duration,
            selected_tab: self.selected_tab,
            search_input: self.search_input@,
            in_flight: self.in_flight,
            last_seq: self.last_seq,
        }
    }
}

/// The text shown when the URL field does not hold an absolute URL.
pub open spec fn invalid_url_message(url: Seq<char>) -> Seq<char> {
    "invalid url: "@ + url
}

/// The text shown while a request is in flight: its method and URL.
pub open spec fn dispatched_message(m: HttpMethod, url: Seq<char>) -> Seq<char> {
    spec_method_name(m) + " "@ + url
}

/// The state after a send action. With a well-formed URL a new request is
/// issued under the next sequence number and becomes the one in flight;
/// otherwise nothing is issued and the response area reports the URL.
/// Either way the last response and its duration are cleared.
pub open spec fn send_view(v: AppView) -> AppView {
    if url_parses(v.request.url@) {
        AppView {
            response_text: dispatched_message(v.request.method, v.request.url@),
            has_tree: false,
            last_duration: None,
            in_flight: Some(next_seq(v.last_seq)),
            last_seq: next_seq(v.last_seq),
            ..v
        }
    } else {
        AppView {
            response_text: invalid_url_message(v.request.url@),
            has_tree: false,
            last_duration: None,
            ..v
        }
    }
}

/// Whether a result is the one awaited: it belongs to the request in flight.
/// Any other result is stale and is discarded.
pub open spec fn awaited(v: AppView, r: TransportResult) -> bool {
    v.in_flight == Some(r.seq)
}

/// The state after one result is taken from the channel.
pub open spec fn receive_view(v: AppView, r: TransportResult) -> AppView {
    if awaited(v, r) {
        AppView {
            response_text: outcome_text(r.outcome),
            has_tree: r.outcome is Body && json_parses(outcome_text(r.outcome)),
            last_duration: Some(r.elapsed),
            in_flight: None,
            ..v
        }
    } else {
        v
    }
}

/// The state after the results `rs` are taken from the channel, in order.
pub open spec fn drain_view(v: AppView, rs: Seq<TransportResult>) -> AppView
    decreases rs.len(),
{
    if rs.len() == 0 {
        v
    } else {
        drain_view(receive_view(v, rs[0]), rs.drop_first())
    }
}

impl AppState {
    /// The state at start-up: an empty GET request with one blank header and
    /// one blank query row, nothing in flight, no response.
    pub fn new() -> (r: AppState)
        ensures
            r.request.method == HttpMethod::GET,
            r.request.url@ == Seq::<char>::empty(),
            r.request.headers@.len() == 1,
            r.request.headers@[0].0@ == Seq::<char>::empty(),
            r.request.headers@[0].1@ == Seq::<char>::empty(),
            r.request.queries@.len() == 1,
            r.request.queries@[0].0@ == Seq::<char>::empty(),
            r.request.queries@[0].1@ == Seq::<char>::empty(),
            r.request.body@ == Seq::<char>::empty(),
            r.response_text@ == Seq::<char>::empty(),
            r.parsed_json is None,
            r.last_duration is None,
            r.selected_tab == EditorTab::Headers,
            r.search_input@ == Seq::<char>::empty(),
            r.in_flight is None,
            r.last_seq == 0,
    {
        let mut headers: Vec<Pair> = Vec::new();
        headers.push((String::new(), String::new()));
        let mut queries: Vec<Pair> = Vec::new();
        queries.push((String::new(), String::new()));
        AppState {
            request: RequestSpec {
                method: HttpMethod::GET,
                url: String::new(),
                headers,
                queries,
                body: String::new(),
            },
            response_text: String::new(),
            parsed_json: None,
            last_duration: None,
            selected_tab: EditorTab::Headers,
            search_input: String::new(),
            in_flight: None,
            last_seq: 0,
        }
    }

    /// Selects the method of the next request.
    pub fn select_method(&mut self, method: HttpMethod)
        ensures
            *final(self) == (AppState {
                request: RequestSpec { method, ..old(self).request },
                ..*old(self)
            }),
    {
        self.request.method = method;
    }

    /// Shows another editor under the URL field.
    pub fn select_tab(&mut self, tab: EditorTab)
        ensures
            *final(self) == (AppState { selected_tab: tab, ..*old(self) }),
    {
        self.selected_tab = tab;
    }

    /// Appends a blank header row to the editor.
    pub fn add_header(&mut self)
        ensures
            final(self).request.headers@.len() == old(self).request.headers@.len() + 1,
            final(self).request.headers@.drop_last() == old(self).request.headers@,
            final(self).request.headers@.last().0@ == Seq::<char>::empty(),
            final(self).request.headers@.last().1@ == Seq::<char>::empty(),
            *final(self) == (AppState {
                request: RequestSpec { headers: final(self).request.headers, ..old(self).request },
                ..*old(self)
            }),
    {
        self.request.headers.push((String::new(), String::new()));
        assert(self.request.headers@.drop_last() =~= old(self).request.headers@);
    }

    /// Removes the header row at index `i`.
    pub fn remove_header(&mut self, i: usize)
        requires
            i < old(self).request.headers@.len(),
        ensures
            final(self).request.headers@ == old(self).request.headers@.remove(i as int),
            *final(self) == (AppState {
                request: RequestSpec { headers: final(self).request.headers, ..old(self).request },
                ..*old(self)
            }),
    {
        self.request.headers.remove(i);
    }

    /// Appends a blank query-parameter row to the editor.
    pub fn add_query(&mut self)
        ensures
            final(self).request.queries@.len() == old(self).request.queries@.len() + 1,
            final(self).request.queries@.drop_last() == old(self).request.queries@,
            final(self).request.queries@.last().0@ == Seq::<char>::empty(),
            final(self).request.queries@.last().1@ == Seq::<char>::empty(),
            *final(self) == (AppState {
                request: RequestSpec { queries: final(self).request.queries, ..old(self).request },
                ..*old(self)
            }),
    {
        self.request.queries.push((String::new(), String::new()));
        assert(self.request.queries@.drop_last() =~= old(self).request.queries@);
    }

    /// Removes the query-parameter row at index `i`.
    pub fn remove_query(&mut self, i: usize)
        requires
            i < old(self).request.queries@.len(),
        ensures
            final(self).request.queries@ == old(self).request.queries@.remove(i as int),
            *final(self) == (AppState {
                request: RequestSpec { queries: final(self).request.queries, ..old(self).request },
                ..*old(self)
            }),
    {
        self.request.queries.remove(i);
    }

    /// Empties the JSON tree's search field.
    pub fn clear_search(&mut self)
        ensures
            final(self).search_input@ == Seq::<char>::empty(),
            *final(self) == (AppState { search_input: final(self).search_input, ..*old(self) }),
    {
        self.search_input = String::new();
    }

    /// Whether a request has been dispatched and its result not yet drained.
    pub fn is_in_flight(&self) -> (r: bool)
        ensures
            r == (self.in_flight is Some),
    {
        self.in_flight.is_some()
    }

    /// The user's send action. With a well-formed absolute URL it issues a
    /// new request under the next sequence number, marks it in flight and
    /// returns what the worker must transmit; otherwise it spawns nothing,
    /// leaves the in-flight request as it was and shows an error naming the
    /// URL.
    pub fn send(&mut self) -> (r: Option<Dispatch>)
        ensures
            final(self)@ == send_view(old(self)@),
            url_parses(old(self).request.url@) <==> r is Some,
            r matches Some(d) ==> d.seq == final(self).last_seq && transmits(
                d.request,
                old(self).request,
            ),
    {
        self.parsed_json = None;
        self.last_duration = None;
        if !is_absolute_url(self.request.url.as_str()) {
            self.response_text = String::from_str("invalid url: ").concat(
                self.request.url.as_str(),
            );
            return None;
        }
        let seq: u64 = if self.last_seq == u64::MAX {
            0
        } else {
            self.last_seq + 1
        };
        let request = self.request.prepare();
        self.last_seq = seq;
        self.in_flight = Some(seq);
        self.response_text = String::from_str(self.request.method.name()).concat(" ").concat(
            self.request.url.as_str(),
        );
        Some(Dispatch { seq, request })
    }

    /// Takes one result from the channel. The awaited result replaces the
    /// response text, its tree and duration, and ends the in-flight state;
    /// a stale one changes nothing.
    pub fn receive(&mut self, result: TransportResult)
        ensures
            final(self)@ == receive_view(old(self)@, result),
            !awaited(old(self)@, result) ==> *final(self) == *old(self),
    {
        if self.in_flight != Some(result.seq) {
            return;
        }
        let is_body = matches!(result.outcome, TransportOutcome::Body(_));
        let text = result.outcome.into_text();
        let tree = if is_body {
            interpret(text.as_str())
        } else {
            None
        };
        self.response_text = text;
        self.parsed_json = tree;
        self.last_duration = Some(result.elapsed);
        self.in_flight = None;
    }

    /// Takes, in order, every result that was waiting in the channel.
    pub fn drain(&mut self, results: Vec<TransportResult>)
        ensures
            final(self)@ == drain_view(old(self)@, results@),
            results@.len() == 0 ==> *final(self) == *old(self),
    {
        let ghost target = drain_view(self@, results@);
        let mut rest = results;
        while rest.len() > 0
            invariant
                drain_view(self@, rest@) == target,
                results@.len() == 0 ==> *self == *old(self) && rest@.len() == 0,
            decreases rest@.len(),
        {
            let ghost before = rest@;
            let r = rest.remove(0);
            assert(rest@ =~= before.drop_first());
            self.receive(r);
        }
    }
}

/// Draining a channel that holds nothing changes nothing, however often it
/// is done.
pub proof fn lemma_empty_drain_is_noop(v: AppView)
    ensures
        drain_view(v, Seq::empty()) == v,
        drain_view(drain_view(v, Seq::empty()), Seq::empty()) == v,
{
}

/// Draining results none of which is awaited leaves the state as it was.
proof fn lemma_drain_unawaited(v: AppView, rs: Seq<TransportResult>)
    requires
        forall|i: int| 0 <= i < rs.len() ==> !awaited(v, #[trigger] rs[i]),
    ensures
        drain_view(v, rs) == v,
    decreases rs.len(),
{
    if rs.len() > 0 {
        assert(!awaited(v, rs[0]));
        assert forall|i: int| 0 <= i < rs.drop_first().len() implies !awaited(
            v,
            #[trigger] rs.drop_first()[i],
        ) by {
            assert(rs.drop_first()[i] == rs[i + 1]);
        }
        lemma_drain_unawaited(v, rs.drop_first());
    }
}

/// A drain ends with nothing in flight, or with the request that was in
/// flight before it still awaited and no result of the batch its own.
proof fn lemma_drain_outcome(v: AppView, rs: Seq<TransportResult>)
    ensures
        drain_view(v, rs).in_flight is None || (drain_view(v, rs) == v && forall|i: int|
            0 <= i < rs.len() ==> !awaited(v, #[trigger] rs[i])),
    decreases rs.len(),
{
    if rs.len() > 0 {
        let first = rs[0];
        let rest = rs.drop_first();
        if awaited(v, first) {
            let w = receive_view(v, first);
            assert forall|i: int| 0 <= i < rest.len() implies !awaited(w, #[trigger] rest[i]) by {}
            lemma_drain_unawaited(w, rest);
        } else {
            lemma_drain_outcome(v, rest);
            if drain_view(v, rs).in_flight is Some {
                assert forall|i: int| 0 <= i < rs.len() implies !awaited(v, #[trigger] rs[i]) by {
                    if i > 0 {
                        assert(rs[i] == rest[i - 1]);
                    }
                }
            }
        }
    }
}

/// Taking the same results from the channel a second time changes nothing:
/// the first pass either ended the request in flight, after which every
/// result is stale, or found none of them awaited.
pub proof fn lemma_drain_idempotent(v: AppView, rs: Seq<TransportResult>)
    ensures
        drain_view(drain_view(v, rs), rs) == drain_view(v, rs),
{
    let w = drain_view(v, rs);
    lemma_drain_outcome(v, rs);
    if w.in_flight is None {
        assert forall|i: int| 0 <= i < rs.len() implies !awaited(w, #[trigger] rs[i]) by {}
    }
    lemma_drain_unawaited(w, rs);
}

/// When a second request is sent before the result of the first is drained,
/// only the second request's result reaches the state, whichever of the two
/// results the channel delivers first. Between the two sends the editor may
/// change anything but the sequence numbers.
pub proof fn lemma_latest_request_wins(
    v: AppView,
    e: AppView,
    first: TransportResult,
    second: TransportResult,
)
    requires
        url_parses(v.request.url@),
        url_parses(e.request.url@),
        e.in_flight == send_view(v).in_flight,
        e.last_seq == send_view(v).last_seq,
        first.seq == send_view(v).last_seq,
        second.seq == send_view(e).last_seq,
    ensures
        drain_view(send_view(e), seq![first, second]) == receive_view(send_view(e), second),
        drain_view(send_view(e), seq![second, first]) == receive_view(send_view(e), second),
        receive_view(send_view(e), second).response_text == outcome_text(second.outcome),
        receive_view(send_view(e), second).last_duration == Some(second.elapsed),
        receive_view(send_view(e), second).in_flight is None,
{
    let s = send_view(e);
    assert(first.seq != second.seq);
    assert(!awaited(s, first));
    assert(awaited(s, second));
    let after = receive_view(s, second);
    assert(!awaited(after, first));
    assert(seq![first, second].drop_first() =~= seq![second]);
    assert(seq![second, first].drop_first() =~= seq![first]);
    assert(seq![second].drop_first() =~= Seq::<TransportResult>::empty());
    assert(seq![first].drop_first() =~= Seq::<TransportResult>::empty());
    assert(drain_view(after, seq![first]) == drain_view(after, Seq::empty()));
    assert(drain_view(s, seq![second]) == drain_view(after, Seq::empty()));
}

} // verus!
