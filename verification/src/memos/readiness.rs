//! Waiting for the managed server to answer.
//!
//! The startup poll asks a short list of version-reporting endpoints, in
//! order, at every tick of a timer, until one of them answers with a success
//! status and a version, or the time is up. Readiness is advisory: a poll that
//! times out stores nothing and fails nobody. A lighter single-shot health
//! check serves liveness checks on demand.
//!
//! The caller sends the requests and reports the replies; what is asked next,
//! when to stop and what to store is decided here.

use vstd::prelude::*;
use crate::memos::version::MemosVersionStore;
use crate::text::{chars_of, has_prefix, joined, string_of, strip_trailing, without_trailing};

verus! {

/// Time between two rounds of the startup poll, in milliseconds.
pub const POLL_INTERVAL_MS: u64 = 100;

/// Total time allowed for the startup poll, in milliseconds.
pub const POLL_TIMEOUT_MS: u64 = 15000;

/// Time allowed for one version request, in milliseconds.
pub const QUERY_TIMEOUT_MS: u64 = 1000;

/// The `User-Agent` header of a version request.
pub const QUERY_USER_AGENT: &'static str = "Memospot";

/// The endpoints that report the server's version, in the order they are
/// asked.
#[derive(Clone, Copy, Debug, PartialEq, Eq, Structural)]
pub enum Endpoint {
    /// The profile of the workspace, of servers from version 0.23 on.
    WorkspaceProfile,
    /// The profile of the instance, of servers from version 0.26 on.
    InstanceProfile,
}

impl Endpoint {
    /// The path of the endpoint, relative to the server's address.
    pub open spec fn path(self) -> Seq<char> {
        match self {
            Endpoint::WorkspaceProfile => "api/v1/workspace/profile"@,
            Endpoint::InstanceProfile => "api/v1/instance/profile"@,
        }
    }

    /// The endpoint that is asked after this one, if there is one.
    pub open spec fn following(self) -> Option<Endpoint> {
        match self {
            Endpoint::WorkspaceProfile => Some(Endpoint::InstanceProfile),
            Endpoint::InstanceProfile => None,
        }
    }

    /// The endpoint that is asked after this one, if there is one.
    pub fn next(self) -> (r: Option<Endpoint>)
        ensures
            r == self.following(),
    {
        match self {
            Endpoint::WorkspaceProfile => Some(Endpoint::InstanceProfile),
            Endpoint::InstanceProfile => None,
        }
    }
}

/// The address of `endpoint` of the server at `base_url`, which ends with
/// a slash.
pub fn endpoint_url(base_url: &str, endpoint: Endpoint) -> (r: String)
    ensures
        r@ == base_url@ + endpoint.path(),
{
    match endpoint {
        Endpoint::WorkspaceProfile => joined(base_url, "api/v1/workspace/profile"),
        Endpoint::InstanceProfile => joined(base_url, "api/v1/instance/profile"),
    }
}

/// Whether the HTTP status `status` reports success.
pub open spec fn is_success(status: u16) -> bool {
    200 <= status <= 299
}

/// What the member `key` of the JSON object written in `body` holds, if
/// `body` is a JSON document whose top level is an object with a member `key`
/// that is a string.
pub uninterp spec fn json_string_member(body: Seq<char>, key: Seq<char>) -> Option<Seq<char>>;

/// `serde_json::from_str` reads `body` as a `serde_json::Value`,
/// `Value::get` looks the member `key` up and `Value::as_str` gives its text
/// if it is a string. The result is a function of `body` and `key` alone and
/// is given the name `json_string_member`.
#[verifier::external_body]
fn string_member(body: &str, key: &str) -> (r: Option<String>)
    ensures
        r matches Some(s) ==> json_string_member(body@, key@) == Some(s@),
        r is None ==> json_string_member(body@, key@) is None,
{
    let document: serde_json::Value = serde_json::from_str(body).ok()?;
    document.get(key)?.as_str().map(String::from)
}

/// The time by which the startup poll is over at the latest, in
/// milliseconds: one interval after the timeout.
pub const POLL_DEADLINE_MS: u64 = POLL_TIMEOUT_MS + POLL_INTERVAL_MS;

/// What came back from one version request.
#[derive(Debug)]
pub enum Reply {
    /// The server answered with `status`; `version` is the text of the
    /// `version` member of the body, if it has one.
    Answered { status: u16, version: Option<String> },
    /// The request failed with the error text `error`.
    Failed { error: String },
    /// The endpoint's address could not be parsed; `error` says why.
    InvalidUrl { error: String },
}

/// What the caller has to do next.
#[derive(Debug)]
pub enum PollAction {
    /// Wait for the next tick.
    Wait,
    /// Send a GET request to `endpoint` with the given time limit.
    Query { endpoint: Endpoint, timeout_ms: u64 },
    /// The server is ready and its version is stored. Stop.
    Ready,
    /// The poll is over without a version. Log `last_error` as a warning
    /// and stop.
    GiveUp { last_error: String },
    /// Nothing: the event does not belong to the current phase.
    Ignore,
}

/// What an action asks for, without its text.
#[derive(Clone, Copy, Debug, PartialEq, Eq, Structural)]
pub enum PollStep {
    Wait,
    Query { endpoint: Endpoint, timeout_ms: u64 },
    Ready,
    GiveUp,
    Ignore,
}

/// What `action` asks for.
pub open spec fn step_of(action: PollAction) -> PollStep {
    match action {
        PollAction::Wait => PollStep::Wait,
        PollAction::Query { endpoint, timeout_ms } => PollStep::Query { endpoint, timeout_ms },
        PollAction::Ready => PollStep::Ready,
        PollAction::GiveUp { last_error } => PollStep::GiveUp,
        PollAction::Ignore => PollStep::Ignore,
    }
}

/// Where the poll stands.
#[derive(Clone, Copy, Debug, PartialEq, Eq, Structural)]
pub enum PollPhase {
    /// Waiting for the next tick.
    Waiting,
    /// A request to `endpoint` is under way.
    Querying { endpoint: Endpoint },
    /// The poll is over.
    Finished,
}

/// The coordinator of the startup poll.
#[derive(Debug)]
pub struct Poll {
    pub phase: PollPhase,
    /// The error text of the most recent failure; empty before the first.
    pub last_error: String,
}

/// Whether `reply` shows that the server is ready: a success status and a
/// version that is not empty.
pub open spec fn is_ready(reply: Reply) -> bool {
    (reply matches Reply::Answered { status, version: Some(v) } && is_success(status) && v@.len()
        > 0)
}

/// Whether `reply` is a success answer whose version is empty: the server
/// answers, but has no version to report. The poll ends and nothing is
/// stored.
pub open spec fn is_blank_answer(reply: Reply) -> bool {
    (reply matches Reply::Answered { status, version: Some(v) } && is_success(status) && v@.len()
        == 0)
}

/// The time limit of a request sent `elapsed_ms` after the poll began: the
/// usual limit, or the time left until the deadline if that is less.
pub open spec fn time_limit(elapsed_ms: u64) -> u64 {
    if elapsed_ms >= POLL_DEADLINE_MS {
        0
    } else if POLL_DEADLINE_MS - elapsed_ms < QUERY_TIMEOUT_MS {
        (POLL_DEADLINE_MS - elapsed_ms) as u64
    } else {
        QUERY_TIMEOUT_MS
    }
}

/// The phase after the tick at `elapsed_ms` arrived in `phase`.
pub open spec fn tick_phase(phase: PollPhase, elapsed_ms: u64) -> PollPhase {
    if phase != PollPhase::Waiting {
        phase
    } else if elapsed_ms > POLL_TIMEOUT_MS {
        PollPhase::Finished
    } else {
        PollPhase::Querying { endpoint: Endpoint::WorkspaceProfile }
    }
}

/// The poll after the tick at `elapsed_ms`: a round of requests begins
/// with the first endpoint, unless the time is up.
pub open spec fn poll_tick(state: Poll, elapsed_ms: u64) -> (Poll, PollAction) {
    (
        Poll { phase: tick_phase(state.phase, elapsed_ms), ..state },
        if state.phase != PollPhase::Waiting {
            PollAction::Ignore
        } else if elapsed_ms > POLL_TIMEOUT_MS {
            PollAction::GiveUp { last_error: state.last_error }
        } else {
            PollAction::Query {
                endpoint: Endpoint::WorkspaceProfile,
                timeout_ms: time_limit(elapsed_ms),
            }
        },
    )
}

/// The phase and step after a failed request to `endpoint` whose failure
/// was known `elapsed_ms` after the poll began: the poll is over if the
/// time is up; else the next endpoint is asked, within the time left, or
/// the round is over.
pub open spec fn after_failure(endpoint: Endpoint, elapsed_ms: u64) -> (PollPhase, PollStep) {
    if elapsed_ms > POLL_TIMEOUT_MS {
        (PollPhase::Finished, PollStep::GiveUp)
    } else {
        match endpoint.following() {
            Some(next) => (
                PollPhase::Querying { endpoint: next },
                PollStep::Query { endpoint: next, timeout_ms: time_limit(elapsed_ms) },
            ),
            None => (PollPhase::Waiting, PollStep::Wait),
        }
    }
}

/// The phase and step after `reply` arrived in `phase`, `elapsed_ms` after
/// the poll began.
pub open spec fn poll_reply(phase: PollPhase, reply: Reply, elapsed_ms: u64) -> (
    PollPhase,
    PollStep,
) {
    match phase {
        PollPhase::Querying { endpoint } => if is_ready(reply) {
            (PollPhase::Finished, PollStep::Ready)
        } else if is_blank_answer(reply) {
            (PollPhase::Finished, PollStep::GiveUp)
        } else if elapsed_ms > POLL_TIMEOUT_MS {
            (PollPhase::Finished, PollStep::GiveUp)
        } else if reply is InvalidUrl {
            (PollPhase::Waiting, PollStep::Wait)
        } else {
            after_failure(endpoint, elapsed_ms)
        },
        _ => (phase, PollStep::Ignore),
    }
}

/// The stored version after `reply` arrived in `phase`, where `stored` was
/// stored before.
pub open spec fn stored_after(phase: PollPhase, reply: Reply, stored: Seq<char>) -> Seq<char> {
    if phase is Querying && is_ready(reply) {
        reply->version->0@
    } else {
        stored
    }
}

/// The error text that the poll remembers after `reply` arrived in
/// `phase`, where `before` was remembered: the text of a failure; a reply
/// that shows the server ready, or answers without a version to report,
/// leaves it.
pub open spec fn error_after(phase: PollPhase, reply: Reply, before: Seq<char>) -> Seq<char> {
    if phase is Querying && !is_ready(reply) && !is_blank_answer(reply) {
        failure_text(reply)
    } else {
        before
    }
}

impl Poll {
    /// A poll that waits for its first tick.
    pub fn begin() -> (r: Poll)
        ensures
            r.phase == PollPhase::Waiting,
            r.last_error@ == Seq::<char>::empty(),
    {
        Poll { phase: PollPhase::Waiting, last_error: String::new() }
    }

    /// The transition on a tick of the timer, `elapsed_ms` after the poll began.
    pub fn on_tick(self, elapsed_ms: u64) -> (r: (Poll, PollAction))
        ensures
            r == poll_tick(self, elapsed_ms),
    {
        let Poll { phase, last_error } = self;
        match phase {
            PollPhase::Waiting => {
                if elapsed_ms > POLL_TIMEOUT_MS {
                    let text = last_error.clone();
                    (
                        Poll { phase: PollPhase::Finished, last_error },
                        PollAction::GiveUp { last_error: text },
                    )
                } else {
                    (
                        Poll {
                            phase: PollPhase::Querying { endpoint: Endpoint::WorkspaceProfile },
                            last_error,
                        },
                        PollAction::Query {
                            endpoint: Endpoint::WorkspaceProfile,
                            timeout_ms: limit(elapsed_ms),
                        },
                    )
                }
            },
            _ => (Poll { phase, last_error }, PollAction::Ignore),
        }
    }

    /// The transition on the reply to the request under way, which arrived
    /// `elapsed_ms` after the poll began. A reply that shows the server
    /// ready ends the poll and stores the version in `store`. A success
    /// answer with an empty version ends the poll too, and stores nothing.
    /// Any other reply leaves `store` alone and is remembered as the last
    /// error; the poll is over if the time is up, and else goes on with the
    /// next endpoint or, after the last endpoint or an address that cannot
    /// be parsed, with the next tick.
    pub fn on_reply(self, reply: Reply, elapsed_ms: u64, store: &mut MemosVersionStore) -> (r: (
        Poll,
        PollAction,
    ))
        ensures
            (r.0.phase, step_of(r.1)) == poll_reply(self.phase, reply, elapsed_ms),
            final(store)@ == stored_after(self.phase, reply, old(store)@),
            r.0.last_error@ == error_after(self.phase, reply, self.last_error@),
            r.1 matches PollAction::GiveUp { last_error } ==> last_error@ == r.0.last_error@,
    {
        let Poll { phase, last_error } = self;
        match phase {
            PollPhase::Querying { endpoint } => {
                match reply {
                    Reply::Answered { status, version } => {
                        if 200 <= status && status <= 299 {
                            match version {
                                Some(v) => {
                                    if v.as_str().unicode_len() > 0 {
                                        store.set(v);
                                        (
                                            Poll { phase: PollPhase::Finished, last_error },
                                            PollAction::Ready,
                                        )
                                    } else {
                                        let text = last_error.clone();
                                        (
                                            Poll { phase: PollPhase::Finished, last_error },
                                            PollAction::GiveUp { last_error: text },
                                        )
                                    }
                                },
                                None => {
                                    let text = String::from_str("server response holds no version");
                                    next_after_failure(endpoint, elapsed_ms, false, text)
                                },
                            }
                        } else {
                            let text = status_error(status);
                            next_after_failure(endpoint, elapsed_ms, false, text)
                        }
                    },
                    Reply::Failed { error } => next_after_failure(
                        endpoint,
                        elapsed_ms,
                        false,
                        error,
                    ),
                    Reply::InvalidUrl { error } => {
                        let text = joined("failed to parse server URL: ", error.as_str());
                        next_after_failure(endpoint, elapsed_ms, true, text)
                    },
                }
            },
            _ => (Poll { phase, last_error }, PollAction::Ignore),
        }
    }

    /// The transition on a raw answer that arrived `elapsed_ms` after the
    /// poll began: the version is read from the member `version` of the
    /// JSON document in `body`, then the poll goes on as `on_reply` says
    /// for an answer with that status and that version.
    pub fn on_answer(
        self,
        status: u16,
        body: &str,
        elapsed_ms: u64,
        store: &mut MemosVersionStore,
    ) -> (r: (Poll, PollAction))
        ensures
            exists|reply: Reply|
                {
                    &&& #[trigger] is_answer(reply, status, json_string_member(body@, "version"@))
                    &&& (r.0.phase, step_of(r.1)) == poll_reply(self.phase, reply, elapsed_ms)
                    &&& final(store)@ == stored_after(self.phase, reply, old(store)@)
                    &&& r.0.last_error@ == error_after(self.phase, reply, self.last_error@)
                },
            r.1 matches PollAction::GiveUp { last_error } ==> last_error@ == r.0.last_error@,
    {
        let version = string_member(body, "version");
        let reply = Reply::Answered { status, version };
        assert(is_answer(reply, status, json_string_member(body@, "version"@)));
        self.on_reply(reply, elapsed_ms, store)
    }
}

/// Whether `reply` is the answer with `status` whose body holds the
/// version `version`, if it holds one.
pub open spec fn is_answer(reply: Reply, status: u16, version: Option<Seq<char>>) -> bool {
    reply matches Reply::Answered { status: s, version: v } && s == status && v.deep_view()
        == version
}

/// Begins the startup poll of the server: it waits for its first tick.
pub fn wait_api_ready() -> (r: Poll)
    ensures
        r.phase == PollPhase::Waiting,
        r.last_error@ == Seq::<char>::empty(),
{
    Poll::begin()
}

/// The error text remembered for a reply that does not show the server ready.
pub open spec fn failure_text(reply: Reply) -> Seq<char> {
    match reply {
        Reply::Answered { status, version } => if is_success(status) {
            "server response holds no version"@
        } else {
            "server responded with status code "@ + crate::decimal::decimal(status as nat)
        },
        Reply::Failed { error } => error@,
        Reply::InvalidUrl { error } => "failed to parse server URL: "@ + error@,
    }
}

/// The time limit of a request sent `elapsed_ms` after the poll began.
fn limit(elapsed_ms: u64) -> (r: u64)
    ensures
        r == time_limit(elapsed_ms),
{
    if elapsed_ms >= POLL_DEADLINE_MS {
        0
    } else if POLL_DEADLINE_MS - elapsed_ms < QUERY_TIMEOUT_MS {
        POLL_DEADLINE_MS - elapsed_ms
    } else {
        QUERY_TIMEOUT_MS
    }
}

/// The error text for an answer whose status `status` is no success.
fn status_error(status: u16) -> (r: String)
    ensures
        r@ == "server responded with status code "@ + crate::decimal::decimal(status as nat),
{
    let mut chars = chars_of("server responded with status code ");
    crate::decimal::push_decimal(status as u64, &mut chars);
    string_of(&chars)
}

/// The poll after a failed request to `endpoint` with the error text
/// `error`; `invalid` says that the endpoint's address could not be parsed,
/// which ends the round.
fn next_after_failure(endpoint: Endpoint, elapsed_ms: u64, invalid: bool, error: String) -> (r: (
    Poll,
    PollAction,
))
    ensures
        r.0.last_error == error,
        (r.0.phase, step_of(r.1)) == if elapsed_ms > POLL_TIMEOUT_MS {
            (PollPhase::Finished, PollStep::GiveUp)
        } else if invalid {
            (PollPhase::Waiting, PollStep::Wait)
        } else {
            after_failure(endpoint, elapsed_ms)
        },
        r.1 matches PollAction::GiveUp { last_error } ==> last_error@ == error@,
{
    if elapsed_ms > POLL_TIMEOUT_MS {
        let text = error.clone();
        (Poll { phase: PollPhase::Finished, last_error: error }, PollAction::GiveUp { last_error: text })
    } else if invalid {
        (Poll { phase: PollPhase::Waiting, last_error: error }, PollAction::Wait)
    } else {
        match endpoint.next() {
            Some(next) => (
                Poll { phase: PollPhase::Querying { endpoint: next }, last_error: error },
                PollAction::Query { endpoint: next, timeout_ms: limit(elapsed_ms) },
            ),
            None => (Poll { phase: PollPhase::Waiting, last_error: error }, PollAction::Wait),
        }
    }
}

/// What the caller reports to the poll.
pub enum PollEvent {
    Tick { elapsed_ms: u64 },
    Replied { reply: Reply, elapsed_ms: u64 },
}

/// The phase and the stored version after the events `events`, taken in
/// order from `phase` with `stored` in the store.
pub open spec fn poll_run(phase: PollPhase, stored: Seq<char>, events: Seq<PollEvent>) -> (
    PollPhase,
    Seq<char>,
)
    decreases events.len(),
{
    if events.len() == 0 {
        (phase, stored)
    } else {
        let before = poll_run(phase, stored, events.drop_last());
        match events.last() {
            PollEvent::Tick { elapsed_ms } => (tick_phase(before.0, elapsed_ms), before.1),
            PollEvent::Replied { reply, elapsed_ms } => (
                poll_reply(before.0, reply, elapsed_ms).0,
                stored_after(before.0, reply, before.1),
            ),
        }
    }
}

/// A server that never answers successfully leaves the stored version as it
/// was, whatever else happens and however long the poll runs.
pub proof fn lemma_poll_without_success_stores_nothing(
    phase: PollPhase,
    stored: Seq<char>,
    events: Seq<PollEvent>,
)
    requires
        forall|i: int|
            0 <= i < events.len() ==> !(#[trigger] events[i] matches PollEvent::Replied {
                reply,
                elapsed_ms,
            } && is_ready(reply)),
    ensures
        poll_run(phase, stored, events).1 == stored,
    decreases events.len(),
{
    if events.len() > 0 {
        lemma_poll_without_success_stores_nothing(phase, stored, events.drop_last());
        assert(!(events[events.len() - 1] matches PollEvent::Replied { reply, elapsed_ms }
            && is_ready(reply)));
    }
}

/// Every request ends by the deadline, one interval after the timeout: a
/// request is sent only while the time is not up, and its time limit is
/// the time left until the deadline at most. This holds of the request
/// that a tick starts and of the one that follows a failed request.
pub proof fn lemma_requests_end_by_deadline(
    state: Poll,
    reply: Reply,
    elapsed_ms: u64,
    endpoint: Endpoint,
    timeout_ms: u64,
)
    ensures
        poll_tick(state, elapsed_ms).1 == (PollAction::Query { endpoint, timeout_ms })
            ==> elapsed_ms <= POLL_TIMEOUT_MS && 0 < timeout_ms <= QUERY_TIMEOUT_MS && elapsed_ms
            + timeout_ms <= POLL_TIMEOUT_MS + POLL_INTERVAL_MS,
        poll_reply(state.phase, reply, elapsed_ms).1 == (PollStep::Query { endpoint, timeout_ms })
            ==> elapsed_ms <= POLL_TIMEOUT_MS && 0 < timeout_ms <= QUERY_TIMEOUT_MS && elapsed_ms
            + timeout_ms <= POLL_TIMEOUT_MS + POLL_INTERVAL_MS,
{
}

/// The poll is over by the deadline: once the time is up, a tick ends it,
/// and so does the reply to a request under way, whatever it says; after
/// that the poll asks for nothing.
pub proof fn lemma_poll_stops_at_timeout(state: Poll, reply: Reply, elapsed_ms: u64)
    requires
        elapsed_ms > POLL_TIMEOUT_MS,
    ensures
        state.phase == PollPhase::Waiting ==> poll_tick(state, elapsed_ms).1
            == (PollAction::GiveUp { last_error: state.last_error }) && poll_tick(
            state,
            elapsed_ms,
        ).0.phase == PollPhase::Finished,
        state.phase is Querying ==> poll_reply(state.phase, reply, elapsed_ms).0
            == PollPhase::Finished,
        forall|later: u64| #[trigger]
            tick_phase(PollPhase::Finished, later) == PollPhase::Finished,
        forall|later: u64, any: Reply| #[trigger]
            poll_reply(PollPhase::Finished, any, later) == (PollPhase::Finished, PollStep::Ignore),
{
}

/// The address of the liveness endpoint of the server at `memos_url`.
pub fn health_endpoint(memos_url: &str) -> (r: String)
    ensures
        r@ == strip_trailing(memos_url@, '/') + "/healthz"@,
{
    let base = string_of(&without_trailing(&chars_of(memos_url), '/'));
    joined(base.as_str(), "/healthz")
}

/// The time limit of a liveness check asked for with `timeout_millis`: a
/// limit under 100 ms is replaced by one second.
pub fn ping_timeout(timeout_millis: u64) -> (r: u64)
    ensures
        r == if timeout_millis < 100 {
            1000
        } else {
            timeout_millis
        },
{
    if timeout_millis < 100 {
        1000
    } else {
        timeout_millis
    }
}

/// The request of one liveness check.
#[derive(Debug)]
pub struct PingRequest {
    pub url: String,
    pub timeout_ms: u64,
}

/// The liveness check of the server at `memos_url`.
pub fn ping_api(memos_url: &str, timeout_millis: u64) -> (r: PingRequest)
    ensures
        r.url@ == strip_trailing(memos_url@, '/') + "/healthz"@,
        r.timeout_ms == if timeout_millis < 100 {
            1000
        } else {
            timeout_millis
        },
{
    PingRequest { url: health_endpoint(memos_url), timeout_ms: ping_timeout(timeout_millis) }
}

/// Whether the answer to a liveness check shows a live server: `answer` is
/// the status and the body of the response, or `None` if the request failed
/// or the body could not be read.
pub fn ping_verdict(answer: Option<(u16, &str)>) -> (r: bool)
    ensures
        r == (answer matches Some((status, body)) && is_success(status)
            && "Service ready."@.is_prefix_of(body@)),
{
    match answer {
        Some((status, body)) => {
            200 <= status && status <= 299 && has_prefix(
                &chars_of(body),
                &chars_of("Service ready."),
            )
        },
        None => false,
    }
}

} // verus!
