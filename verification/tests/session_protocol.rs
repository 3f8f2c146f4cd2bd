use joker::args::Args;
use joker::args::Commands;
use joker::args::MineArgs;
use joker::args::create_joker_instance;
use joker::cookies::join_cookie_headers;
use joker::session::ClaimStep;
use joker::session::FailureKind;
use joker::session::Joker;
use joker::session::MissionStep;
use joker::session::Outcome;
use joker::session::process_records_response;

fn fresh_session() -> Joker {
    Joker::new(
        "Joker".to_string(),
        "base=1;".to_string(),
        "s0=old".to_string(),
        "Bearer tok".to_string(),
        None,
        None,
        None,
        2,
    )
}

fn response(status: u16, set_cookies: Vec<&str>, body: &str) -> Outcome {
    Outcome::Response {
        status,
        set_cookies: set_cookies.into_iter().map(|s| s.to_string()).collect(),
        body: body.to_string(),
    }
}

#[test]
fn transport_failure_leaves_state_and_retries_after_fixed_delay() {
    let mut j = fresh_session();
    let before_cookie = j.cookie_header_value();
    let before_count = j.cycle_count();
    let step = j.on_mission_outcome(&Outcome::Transport);
    assert!(matches!(
        step,
        MissionStep::Retry { delay_ms: 1000, kind: FailureKind::TransportFailure }
    ));
    assert_eq!(j.cycle_count(), before_count);
    assert_eq!(j.cookie_header_value(), before_cookie);
    // Once the failure is gone the same session proceeds normally.
    let ok = response(200, vec![], "{\"result\":{\"payload\":\"abc\",\"require\":\"0\"}}");
    match j.on_mission_outcome(&ok) {
        MissionStep::Mission { challenge } => {
            assert_eq!(challenge.payload, "abc");
            assert_eq!(challenge.requirement, "0");
        }
        MissionStep::Retry { .. } => panic!("a well-shaped success must yield the challenge"),
    }
}

#[test]
fn non_success_status_retries_fetch() {
    let mut j = fresh_session();
    let step = j.on_mission_outcome(&response(429, vec![], "{}"));
    assert!(matches!(
        step,
        MissionStep::Retry { delay_ms: 1000, kind: FailureKind::ProtocolFailure }
    ));
}

#[test]
fn malformed_mission_body_retries_fetch() {
    let mut j = fresh_session();
    let step = j.on_mission_outcome(&response(200, vec![], "not json at all"));
    assert!(matches!(
        step,
        MissionStep::Retry { delay_ms: 1000, kind: FailureKind::MalformedResponse }
    ));
    let step = j.on_mission_outcome(&response(200, vec![], "{\"result\":\"bare\"}"));
    assert!(matches!(
        step,
        MissionStep::Retry { delay_ms: 1000, kind: FailureKind::MalformedResponse }
    ));
}

#[test]
fn success_joins_session_cookies_in_header_order() {
    let mut j = fresh_session();
    let ok = response(
        200,
        vec!["sid=abc; Path=/; HttpOnly", "theme=dark"],
        "{\"result\":{\"payload\":\"p\",\"require\":\"r\"}}",
    );
    let step = j.on_mission_outcome(&ok);
    assert!(matches!(step, MissionStep::Mission { .. }));
    assert_eq!(j.cookie_header_value(), "base=1; sid=abc; theme=dark");
}

#[test]
fn exchange_without_cookie_headers_keeps_cookie_state() {
    let mut j = fresh_session();
    let ok = response(200, vec![], "{\"result\":{\"payload\":\"p\",\"require\":\"r\"}}");
    j.on_mission_outcome(&ok);
    assert_eq!(j.cookie_header_value(), "base=1; s0=old");
}

#[test]
fn unparsable_cookie_headers_are_skipped() {
    let joined = join_cookie_headers(&vec![
        "a=1".to_string(),
        "no_pair_here".to_string(),
        "b=2".to_string(),
    ]);
    assert_eq!(joined, "a=1; b=2");
}

#[test]
fn join_of_no_headers_is_empty() {
    assert_eq!(join_cookie_headers(&vec![]), "");
}

#[test]
fn claim_adopts_first_rotating_id_of_nonempty_list() {
    let mut j = fresh_session();
    let ok = response(
        200,
        vec![],
        "{\"result\":[{\"pow_id\":\"A\"},{\"pow_id\":\"B\"}]}",
    );
    let step = j.on_claim_outcome(&ok);
    assert_eq!(step, ClaimStep::Done);
    assert_eq!(j.pow_id().as_deref(), Some("A"));
}

#[test]
fn claim_with_empty_list_keeps_rotating_id() {
    let mut j = Joker::new(
        "Joker".to_string(),
        "c".to_string(),
        "".to_string(),
        "a".to_string(),
        None,
        Some("X1".to_string()),
        None,
        2,
    );
    let step = j.on_claim_outcome(&response(200, vec![], "{\"result\":[]}"));
    assert_eq!(step, ClaimStep::Done);
    assert_eq!(j.pow_id().as_deref(), Some("X1"));
}

#[test]
fn claim_transport_failure_retries_after_short_delay() {
    let mut j = fresh_session();
    let step = j.on_claim_outcome(&Outcome::Transport);
    assert_eq!(
        step,
        ClaimStep::Retry { delay_ms: 300, kind: FailureKind::TransportFailure }
    );
}

#[test]
fn claim_failure_status_and_malformed_body_retry() {
    let mut j = fresh_session();
    let step = j.on_claim_outcome(&response(500, vec![], "{}"));
    assert_eq!(
        step,
        ClaimStep::Retry { delay_ms: 300, kind: FailureKind::ProtocolFailure }
    );
    let step = j.on_claim_outcome(&response(200, vec![], "{\"result\":\"oops\"}"));
    assert_eq!(
        step,
        ClaimStep::Retry { delay_ms: 300, kind: FailureKind::MalformedResponse }
    );
}

#[test]
fn mission_body_is_empty_object_without_token() {
    let j = fresh_session();
    assert_eq!(j.mission_request_body(), "{}");
}

#[test]
fn mission_body_carries_anti_automation_token() {
    let j = Joker::new(
        "Joker".to_string(),
        "c".to_string(),
        "".to_string(),
        "a".to_string(),
        Some("tok123".to_string()),
        None,
        None,
        2,
    );
    assert_eq!(j.mission_request_body(), "{\"cf_response\":\"tok123\"}");
}

#[test]
fn mission_body_escapes_token() {
    let j = Joker::new(
        "Joker".to_string(),
        "c".to_string(),
        "".to_string(),
        "a".to_string(),
        Some("a\"b\\c\n".to_string()),
        None,
        None,
        2,
    );
    assert_eq!(
        j.mission_request_body(),
        "{\"cf_response\":\"a\\\"b\\\\c\\u000a\"}"
    );
}

#[test]
fn chained_claim_body_carries_pow_id() {
    let mut j = fresh_session();
    let fetched = response(200, vec![], "{\"result\":[{\"pow_id\":\"X1\"}]}");
    j.on_claim_outcome(&fetched);
    let body = j.claim_request_body("n1", "d1");
    assert_eq!(body.as_deref(), Some("{\"nonce\":\"n1\",\"pow_id\":\"X1\"}"));
}

#[test]
fn chained_claim_without_pow_id_cannot_be_sent() {
    let j = fresh_session();
    assert_eq!(j.claim_request_body("n1", "d1"), None);
}

#[test]
fn plain_claim_body_carries_digest() {
    let mut j = fresh_session();
    j.set_chained(false);
    let body = j.claim_request_body("n1", "d1");
    assert_eq!(body.as_deref(), Some("{\"nonce\":\"n1\",\"hash\":\"d1\"}"));
}

#[test]
fn completed_cycle_counts_and_pauses() {
    let mut j = fresh_session();
    assert_eq!(j.cycle_count(), 0);
    assert_eq!(j.cumulative_solve_time_ms(), 0);
    let pause = j.complete_cycle(250);
    assert_eq!(pause, 100);
    assert_eq!(j.cycle_count(), 1);
    assert_eq!(j.cumulative_solve_time_ms(), 250);
    j.complete_cycle(50);
    assert_eq!(j.cycle_count(), 2);
    assert_eq!(j.cumulative_solve_time_ms(), 300);
}

#[test]
fn cycle_counters_saturate_at_the_top() {
    let mut j = fresh_session();
    j.complete_cycle(u64::MAX);
    j.complete_cycle(u64::MAX);
    assert_eq!(j.cycle_count(), 2);
    assert_eq!(j.cumulative_solve_time_ms(), u64::MAX);
}

#[test]
fn records_seed_the_rotating_id() {
    let records = process_records_response(200, "{\"result\":[{\"pow_id\":\"R1\"},{\"pow_id\":\"R2\"}]}");
    assert_eq!(records, vec!["R1".to_string(), "R2".to_string()]);
    let mut j = fresh_session();
    j.adopt_records(&records);
    assert_eq!(j.pow_id().as_deref(), Some("R1"));
}

#[test]
fn failed_or_malformed_records_yield_none() {
    assert!(process_records_response(503, "{}").is_empty());
    assert!(process_records_response(200, "no json").is_empty());
    let mut j = Joker::new(
        "Joker".to_string(),
        "c".to_string(),
        "".to_string(),
        "a".to_string(),
        None,
        Some("X1".to_string()),
        None,
        2,
    );
    j.adopt_records(&Vec::new());
    assert_eq!(j.pow_id().as_deref(), None);
}

#[test]
fn instance_from_args_carries_bearer_token_and_defaults() {
    let args = Args {
        cookie: "ck=1".to_string(),
        session_cookie: Some("sc=2".to_string()),
        authorization: "tok".to_string(),
        cf_response: None,
        proxy: None,
        command: Commands::Mine(MineArgs { threads: 4 }),
    };
    let mut j = create_joker_instance(&args);
    assert_eq!(j.name(), "Joker");
    assert_eq!(j.authorization(), "Bearer tok");
    assert_eq!(j.threads(), 2);
    assert_eq!(j.cookie_header_value(), "ck=1 sc=2");
    assert_eq!(j.pow_id().as_deref(), None);
    j.set_threads(8);
    assert_eq!(j.threads(), 8);
}
