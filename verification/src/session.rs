//! The mining session: state carried across cycles and the decisions taken
//! on each network outcome. The caller performs the requests and hands the
//! outcomes back; every decision about state and retries is made here.

use crate::cookies::joined_cookies;
use crate::cookies::join_cookie_headers;
use crate::json::append_json_string;
use crate::json::json_string;
use crate::solver::Challenge;
use crate::wire::mission_fields_of;
use crate::wire::parse_mission_fields;
use crate::wire::parse_pow_ids;
use crate::wire::pow_ids_of;
use vstd::prelude::*;
use vstd::string::*;

verus! {

/// Backoff before retrying a failed challenge fetch.
pub const FETCH_RETRY_MS: u64 = 1000;

/// Backoff before retrying a failed claim submission.
pub const CLAIM_RETRY_MS: u64 = 300;

/// Pause between one completed cycle and the next fetch.
pub const CYCLE_PAUSE_MS: u64 = 100;

/// What one network exchange came to: no response at all, or a response
/// with its status, its session-cookie header values, and its body.
pub enum Outcome {
    Transport,
    Response { status: u16, set_cookies: Vec<String>, body: String },
}

/// The mathematical value of an `Outcome`.
pub ghost enum OutcomeView {
    Transport,
    Response { status: u16, set_cookies: Seq<Seq<char>>, body: Seq<char> },
}

impl View for Outcome {
    type V = OutcomeView;

    open spec fn view(&self) -> OutcomeView {
        match self {
            Outcome::Transport => OutcomeView::Transport,
            Outcome::Response { status, set_cookies, body } => OutcomeView::Response {
                status: *status,
                set_cookies: set_cookies.deep_view(),
                body: body@,
            },
        }
    }
}

/// Why an exchange failed: no response at all, a response whose status was
/// not a success, or a success whose body was not of the expected shape.
/// None is fatal; each is absorbed by a retry.
#[derive(PartialEq, Eq, Structural, Debug, Clone, Copy)]
pub enum FailureKind {
    TransportFailure,
    ProtocolFailure,
    MalformedResponse,
}

/// What the fetch step asks the caller to do next: wait and retry, or
/// solve the challenge that arrived.
pub enum MissionStep {
    Retry { delay_ms: u64, kind: FailureKind },
    Mission { challenge: Challenge },
}

/// The mathematical value of a `MissionStep`.
pub ghost enum MissionStepView {
    Retry { delay_ms: u64, kind: FailureKind },
    Mission { payload: Seq<char>, requirement: Seq<char> },
}

impl View for MissionStep {
    type V = MissionStepView;

    open spec fn view(&self) -> MissionStepView {
        match self {
            MissionStep::Retry { delay_ms, kind } => MissionStepView::Retry {
                delay_ms: *delay_ms,
                kind: *kind,
            },
            MissionStep::Mission { challenge } => MissionStepView::Mission {
                payload: challenge.payload@,
                requirement: challenge.requirement@,
            },
        }
    }
}

/// What the claim step asks the caller to do next.
#[derive(PartialEq, Eq, Structural, Debug)]
pub enum ClaimStep {
    Retry { delay_ms: u64, kind: FailureKind },
    Done,
}

/// The session state: credentials, the cookie value, the rotating
/// identifier, and the running counters.
pub struct Joker {
    name: String,
    cookie: String,
    session_cookie: String,
    authorization: String,
    cf_response: Option<String>,
    pow_id: Option<String>,
    proxy: Option<String>,
    threads: u8,
    chained: bool,
    cycle_count: u64,
    cumulative_solve_time_ms: u64,
}

/// The mathematical value of a `Joker`.
pub ghost struct JokerView {
    pub name: Seq<char>,
    pub cookie: Seq<char>,
    pub session_cookie: Seq<char>,
    pub authorization: Seq<char>,
    pub cf_response: Option<Seq<char>>,
    pub pow_id: Option<Seq<char>>,
    pub proxy: Option<Seq<char>>,
    pub threads: u8,
    pub chained: bool,
    pub cycle_count: u64,
    pub cumulative_solve_time_ms: u64,
}

impl View for Joker {
    type V = JokerView;

    closed spec fn view(&self) -> JokerView {
        JokerView {
            name: self.name@,
            cookie: self.cookie@,
            session_cookie: self.session_cookie@,
            authorization: self.authorization@,
            cf_response: self.cf_response.deep_view(),
            pow_id: self.pow_id.deep_view(),
            proxy: self.proxy.deep_view(),
            threads: self.threads,
            chained: self.chained,
            cycle_count: self.cycle_count,
            cumulative_solve_time_ms: self.cumulative_solve_time_ms,
        }
    }
}

/// The cookie value after an exchange: unchanged when the response set no
/// cookies, else the join of the pairs its headers parse to.
pub open spec fn next_session_cookie(current: Seq<char>, set_cookies: Seq<Seq<char>>) -> Seq<char> {
    if set_cookies.len() == 0 {
        current
    } else {
        joined_cookies(set_cookies)
    }
}

/// The session state after a fetch outcome: a success refreshes the cookie
/// value; everything else leaves the state as it was.
pub open spec fn mission_transition(s: JokerView, o: OutcomeView) -> JokerView {
    match o {
        OutcomeView::Transport => s,
        OutcomeView::Response { status, set_cookies, body } => {
            if status == 200 {
                JokerView { session_cookie: next_session_cookie(s.session_cookie, set_cookies), ..s }
            } else {
                s
            }
        },
    }
}

/// The action after a fetch outcome: the challenge when a success carries
/// one, else a retry after the fetch backoff.
pub open spec fn mission_step_spec(o: OutcomeView) -> MissionStepView {
    match o {
        OutcomeView::Transport => MissionStepView::Retry {
            delay_ms: FETCH_RETRY_MS,
            kind: FailureKind::TransportFailure,
        },
        OutcomeView::Response { status, set_cookies, body } => {
            if status == 200 {
                match mission_fields_of(body) {
                    Some(f) => MissionStepView::Mission { payload: f.0, requirement: f.1 },
                    None => MissionStepView::Retry {
                        delay_ms: FETCH_RETRY_MS,
                        kind: FailureKind::MalformedResponse,
                    },
                }
            } else {
                MissionStepView::Retry {
                    delay_ms: FETCH_RETRY_MS,
                    kind: FailureKind::ProtocolFailure,
                }
            }
        },
    }
}

/// The session state after a claim outcome: a success refreshes the cookie
/// value and adopts the first rotating identifier of a non-empty list;
/// everything else leaves the state as it was.
pub open spec fn claim_transition(s: JokerView, o: OutcomeView) -> JokerView {
    match o {
        OutcomeView::Transport => s,
        OutcomeView::Response { status, set_cookies, body } => {
            if status == 200 {
                let refreshed = JokerView {
                    session_cookie: next_session_cookie(s.session_cookie, set_cookies),
                    ..s
                };
                match pow_ids_of(body) {
                    Some(ids) => {
                        if ids.len() > 0 {
                            JokerView { pow_id: Some(ids[0]), ..refreshed }
                        } else {
                            refreshed
                        }
                    },
                    None => refreshed,
                }
            } else {
                s
            }
        },
    }
}

/// The action after a claim outcome: done on a success whose body has the
/// expected shape, else a retry after the claim backoff.
pub open spec fn claim_step_spec(o: OutcomeView) -> ClaimStep {
    match o {
        OutcomeView::Transport => ClaimStep::Retry {
            delay_ms: CLAIM_RETRY_MS,
            kind: FailureKind::TransportFailure,
        },
        OutcomeView::Response { status, set_cookies, body } => {
            if status != 200 {
                ClaimStep::Retry { delay_ms: CLAIM_RETRY_MS, kind: FailureKind::ProtocolFailure }
            } else if pow_ids_of(body) is Some {
                ClaimStep::Done
            } else {
                ClaimStep::Retry { delay_ms: CLAIM_RETRY_MS, kind: FailureKind::MalformedResponse }
            }
        },
    }
}

/// The body of a challenge-fetch request: empty, or carrying the
/// anti-automation response token when the session holds one.
pub open spec fn mission_body_spec(cf: Option<Seq<char>>) -> Seq<char> {
    match cf {
        None => "{}"@,
        Some(v) => "{\"cf_response\":"@ + json_string(v) + "}"@,
    }
}

/// The body of a claim request: the nonce with the rotating identifier
/// when chaining is active, else the nonce with its digest. Absent when
/// chaining is active but no identifier is held yet.
pub open spec fn claim_body_spec(s: JokerView, nonce: Seq<char>, digest: Seq<char>) -> Option<
    Seq<char>,
> {
    if s.chained {
        match s.pow_id {
            Some(p) => Some(
                "{\"nonce\":"@ + json_string(nonce) + ",\"pow_id\":"@ + json_string(p) + "}"@,
            ),
            None => None,
        }
    } else {
        Some("{\"nonce\":"@ + json_string(nonce) + ",\"hash\":"@ + json_string(digest) + "}"@)
    }
}

impl Joker {
    /// A fresh session with the given credentials, no live challenge, the
    /// chaining variant active, and the counters at zero.
    pub fn new(
        name: String,
        cookie: String,
        session_cookie: String,
        authorization: String,
        cf_response: Option<String>,
        pow_id: Option<String>,
        proxy: Option<String>,
        core: u8,
    ) -> (r: Self)
        ensures
            r@ == (JokerView {
                name: name@,
                cookie: cookie@,
                session_cookie: session_cookie@,
                authorization: authorization@,
                cf_response: cf_response.deep_view(),
                pow_id: pow_id.deep_view(),
                proxy: proxy.deep_view(),
                threads: core,
                chained: true,
                cycle_count: 0,
                cumulative_solve_time_ms: 0,
            }),
    {
        Self {
            name,
            cookie,
            session_cookie,
            authorization,
            cf_response,
            pow_id,
            proxy,
            threads: core,
            chained: true,
            cycle_count: 0,
            cumulative_solve_time_ms: 0,
        }
    }

    /// Sets how many workers the solver may use.
    pub fn set_threads(&mut self, core: u8)
        ensures
            final(self)@ == (JokerView { threads: core, ..old(self)@ }),
    {
        self.threads = core;
    }

    /// Selects between the chaining variant, whose claims carry the
    /// rotating identifier, and the self-contained variant, whose claims
    /// carry the digest instead.
    pub fn set_chained(&mut self, chained: bool)
        ensures
            final(self)@ == (JokerView { chained, ..old(self)@ }),
    {
        self.chained = chained;
    }

    /// The value sent in the cookie header: the fixed cookie, a space, and
    /// the current session cookie.
    pub fn cookie_header_value(&self) -> (r: String)
        ensures
            r@ == self@.cookie + " "@ + self@.session_cookie,
    {
        let mut r = String::new();
        r.append(self.cookie.as_str());
        r.append(" ");
        r.append(self.session_cookie.as_str());
        r
    }

    /// The body of the next challenge-fetch request.
    pub fn mission_request_body(&self) -> (r: String)
        ensures
            r@ == mission_body_spec(self@.cf_response),
    {
        match &self.cf_response {
            None => String::from_str("{}"),
            Some(v) => {
                let mut r = String::from_str("{\"cf_response\":");
                append_json_string(&mut r, v.as_str());
                r.append("}");
                r
            },
        }
    }

    /// The body of the next claim request, when one can be sent: with the
    /// chaining variant a held rotating identifier is required.
    pub fn claim_request_body(&self, nonce: &str, digest: &str) -> (r: Option<String>)
        ensures
            match r {
                Some(b) => claim_body_spec(self@, nonce@, digest@) matches Some(q) && b@ == q,
                None => claim_body_spec(self@, nonce@, digest@) is None,
            },
            r is Some <==> (!self@.chained || self@.pow_id is Some),
    {
        if self.chained {
            match &self.pow_id {
                Some(p) => {
                    let mut r = String::from_str("{\"nonce\":");
                    append_json_string(&mut r, nonce);
                    r.append(",\"pow_id\":");
                    append_json_string(&mut r, p.as_str());
                    r.append("}");
                    Some(r)
                },
                None => None,
            }
        } else {
            let mut r = String::from_str("{\"nonce\":");
            append_json_string(&mut r, nonce);
            r.append(",\"hash\":");
            append_json_string(&mut r, digest);
            r.append("}");
            Some(r)
        }
    }

    /// Takes the outcome of a challenge-fetch exchange: refreshes the
    /// session state as the outcome warrants and says what to do next.
    pub fn on_mission_outcome(&mut self, outcome: &Outcome) -> (r: MissionStep)
        ensures
            final(self)@ == mission_transition(old(self)@, outcome@),
            r@ == mission_step_spec(outcome@),
    {
        match outcome {
            Outcome::Transport => MissionStep::Retry {
                delay_ms: FETCH_RETRY_MS,
                kind: FailureKind::TransportFailure,
            },
            Outcome::Response { status, set_cookies, body } => {
                if *status == 200 {
                    if set_cookies.len() > 0 {
                        self.session_cookie = join_cookie_headers(set_cookies);
                    }
                    match parse_mission_fields(body.as_str()) {
                        Some(fields) => MissionStep::Mission {
                            challenge: Challenge { payload: fields.0, requirement: fields.1 },
                        },
                        None => MissionStep::Retry {
                            delay_ms: FETCH_RETRY_MS,
                            kind: FailureKind::MalformedResponse,
                        },
                    }
                } else {
                    MissionStep::Retry {
                        delay_ms: FETCH_RETRY_MS,
                        kind: FailureKind::ProtocolFailure,
                    }
                }
            },
        }
    }

    /// Takes the outcome of a claim exchange: refreshes the session state
    /// as the outcome warrants and says whether the claim went through.
    pub fn on_claim_outcome(&mut self, outcome: &Outcome) -> (r: ClaimStep)
        ensures
            final(self)@ == claim_transition(old(self)@, outcome@),
            r == claim_step_spec(outcome@),
    {
        match outcome {
            Outcome::Transport => ClaimStep::Retry {
                delay_ms: CLAIM_RETRY_MS,
                kind: FailureKind::TransportFailure,
            },
            Outcome::Response { status, set_cookies, body } => {
                if *status == 200 {
                    if set_cookies.len() > 0 {
                        self.session_cookie = join_cookie_headers(set_cookies);
                    }
                    match parse_pow_ids(body.as_str()) {
                        Some(ids) => {
                            if ids.len() > 0 {
                                let first = ids[0].clone();
                                self.pow_id = Some(first);
                            }
                            ClaimStep::Done
                        },
                        None => ClaimStep::Retry {
                            delay_ms: CLAIM_RETRY_MS,
                            kind: FailureKind::MalformedResponse,
                        },
                    }
                } else {
                    ClaimStep::Retry {
                        delay_ms: CLAIM_RETRY_MS,
                        kind: FailureKind::ProtocolFailure,
                    }
                }
            },
        }
    }

    /// Closes a successful cycle: counts it, accumulates the solve time,
    /// both saturating at the top of their range, and asks for the fixed
    /// pause before the next fetch.
    pub fn complete_cycle(&mut self, elapsed_ms: u64) -> (pause_ms: u64)
        ensures
            final(self)@ == (JokerView {
                cycle_count: if old(self)@.cycle_count < u64::MAX {
                    (old(self)@.cycle_count + 1) as u64
                } else {
                    u64::MAX
                },
                cumulative_solve_time_ms: if old(self)@.cumulative_solve_time_ms + elapsed_ms <= u64::MAX {
                    (old(self)@.cumulative_solve_time_ms + elapsed_ms) as u64
                } else {
                    u64::MAX
                },
                ..old(self)@
            }),
            pause_ms == CYCLE_PAUSE_MS,
    {
        if self.cycle_count < u64::MAX {
            self.cycle_count = self.cycle_count + 1;
        }
        if elapsed_ms <= u64::MAX - self.cumulative_solve_time_ms {
            self.cumulative_solve_time_ms = self.cumulative_solve_time_ms + elapsed_ms;
        } else {
            self.cumulative_solve_time_ms = u64::MAX;
        }
        CYCLE_PAUSE_MS
    }

    /// Seeds the rotating identifier from a prior-records query: the first
    /// record when there is one, else none.
    pub fn adopt_records(&mut self, records: &Vec<String>)
        ensures
            final(self)@ == (JokerView {
                pow_id: if records@.len() > 0 {
                    Some(records@[0]@)
                } else {
                    None
                },
                ..old(self)@
            }),
    {
        if records.len() > 0 {
            self.pow_id = Some(records[0].clone());
        } else {
            self.pow_id = None;
        }
    }

    /// The session's display name.
    pub fn name(&self) -> (r: &String)
        ensures
            r@ == self@.name,
    {
        &self.name
    }

    /// The bearer token sent in the authorization header.
    pub fn authorization(&self) -> (r: &String)
        ensures
            r@ == self@.authorization,
    {
        &self.authorization
    }

    /// The proxy to route requests through, if any.
    pub fn proxy(&self) -> (r: &Option<String>)
        ensures
            r.deep_view() == self@.proxy,
    {
        &self.proxy
    }

    /// The rotating identifier currently held, if any.
    pub fn pow_id(&self) -> (r: &Option<String>)
        ensures
            r.deep_view() == self@.pow_id,
    {
        &self.pow_id
    }

    /// How many workers the solver may use.
    pub fn threads(&self) -> (r: u8)
        ensures
            r == self@.threads,
    {
        self.threads
    }

    /// How many cycles have completed.
    pub fn cycle_count(&self) -> (r: u64)
        ensures
            r == self@.cycle_count,
    {
        self.cycle_count
    }

    /// The accumulated solve time over all completed cycles, in
    /// milliseconds.
    pub fn cumulative_solve_time_ms(&self) -> (r: u64)
        ensures
            r == self@.cumulative_solve_time_ms,
    {
        self.cumulative_solve_time_ms
    }
}

/// Prior records, read from a records response: the identifier list of a
/// success with the expected shape, else nothing.
pub open spec fn records_spec(status: u16, body: Seq<char>) -> Seq<Seq<char>> {
    if status == 200 {
        match pow_ids_of(body) {
            Some(ids) => ids,
            None => Seq::empty(),
        }
    } else {
        Seq::empty()
    }
}

/// Reads the rotating identifiers out of a records response; a failure or
/// an unexpected shape yields none.
pub fn process_records_response(status: u16, body: &str) -> (r: Vec<String>)
    ensures
        r.deep_view() == records_spec(status, body@),
{
    if status == 200 {
        match parse_pow_ids(body) {
            Some(ids) => ids,
            None => {
                let r: Vec<String> = Vec::new();
                proof {
                    assert(r.deep_view() =~= Seq::<Seq<char>>::empty());
                }
                r
            },
        }
    } else {
        let r: Vec<String> = Vec::new();
        proof {
            assert(r.deep_view() =~= Seq::<Seq<char>>::empty());
        }
        r
    }
}

/// A transport failure while fetching leaves the whole session state as it
/// was — the cycle count in particular — and asks for the fixed fetch
/// backoff; the request then retried is built from the same state, so it
/// is the same request.
pub proof fn lemma_fetch_transport_failure(s: JokerView)
    ensures
        mission_transition(s, OutcomeView::Transport) == s,
        mission_step_spec(OutcomeView::Transport) == (MissionStepView::Retry {
            delay_ms: FETCH_RETRY_MS,
            kind: FailureKind::TransportFailure,
        }),
        mission_body_spec(mission_transition(s, OutcomeView::Transport).cf_response)
            == mission_body_spec(s.cf_response),
{
}

/// After a successful exchange the cookie value is the join of the pairs
/// that the exchange's session-cookie headers parse to, in header order,
/// separated by `"; "`; an exchange without such headers leaves the cookie
/// value unchanged. This holds for fetch and claim exchanges alike.
pub proof fn lemma_cookie_state(
    s: JokerView,
    set_cookies: Seq<Seq<char>>,
    body: Seq<char>,
)
    ensures
        set_cookies.len() == 0 ==> mission_transition(
            s,
            OutcomeView::Response { status: 200, set_cookies, body },
        ).session_cookie == s.session_cookie,
        set_cookies.len() > 0 ==> mission_transition(
            s,
            OutcomeView::Response { status: 200, set_cookies, body },
        ).session_cookie == joined_cookies(set_cookies),
        set_cookies.len() == 0 ==> claim_transition(
            s,
            OutcomeView::Response { status: 200, set_cookies, body },
        ).session_cookie == s.session_cookie,
        set_cookies.len() > 0 ==> claim_transition(
            s,
            OutcomeView::Response { status: 200, set_cookies, body },
        ).session_cookie == joined_cookies(set_cookies),
{
}

/// A successful claim adopts the first rotating identifier of a non-empty
/// identifier list and keeps the held one when the list is empty or the
/// body carries none.
pub proof fn lemma_rotating_id(s: JokerView, set_cookies: Seq<Seq<char>>, body: Seq<char>)
    ensures
        match pow_ids_of(body) {
            Some(ids) => {
                &&& ids.len() > 0 ==> claim_transition(
                    s,
                    OutcomeView::Response { status: 200, set_cookies, body },
                ).pow_id == Some(ids[0])
                &&& ids.len() == 0 ==> claim_transition(
                    s,
                    OutcomeView::Response { status: 200, set_cookies, body },
                ).pow_id == s.pow_id
            },
            None => claim_transition(
                s,
                OutcomeView::Response { status: 200, set_cookies, body },
            ).pow_id == s.pow_id,
        },
{
}

/// With the chaining variant active and an identifier held, the claim body
/// carries that identifier, spelled as the `pow_id` field.
pub proof fn lemma_claim_carries_pow_id(s: JokerView, nonce: Seq<char>, digest: Seq<char>)
    requires
        s.chained,
        s.pow_id is Some,
    ensures
        claim_body_spec(s, nonce, digest) == Some(
            "{\"nonce\":"@ + json_string(nonce) + ",\"pow_id\":"@ + json_string(s.pow_id.unwrap())
                + "}"@,
        ),
{
}

} // verus!
