use rzd_coupe::errors::{ErrorKind, Failure};
use rzd_coupe::protocol::{
    classify_response, run_submit, RawResponse, ResponseClass, SubmitOutcome,
};

fn http(status: u16, body: &str) -> RawResponse {
    RawResponse::Http { status, body: body.to_string() }
}

fn classify_all(raw: Vec<RawResponse>) -> Vec<ResponseClass> {
    raw.into_iter().map(classify_response).collect()
}

fn blocked() -> ResponseClass {
    classify_response(http(403, ""))
}

fn document(body: &str) -> ResponseClass {
    classify_response(http(200, body))
}

fn pending() -> ResponseClass {
    classify_response(http(200, "{\"RID\":\"abc\"}"))
}

#[test]
fn two_blocked_then_ready_takes_two_rotations() {
    let classes = vec![blocked(), blocked(), document("{\"city\":[]}")];
    let (outcome, rotations) = run_submit(classes, 5);
    match outcome {
        Some(SubmitOutcome::Ready { payload }) => assert_eq!(payload, "{\"city\":[]}"),
        other => panic!("expected a ready outcome, got {:?}", other.is_some()),
    }
    assert_eq!(rotations, 2);
}

#[test]
fn blocked_with_zero_budget_fails() {
    let (outcome, rotations) = run_submit(vec![blocked()], 0);
    match outcome {
        Some(SubmitOutcome::Failed { failure }) => {
            assert_eq!(failure.message(), "exhausted retry budget");
        }
        _ => panic!("expected a failed outcome"),
    }
    assert_eq!(rotations, 0);
}

#[test]
fn five_pending_polls_exhaust_the_polling_budget() {
    // The first answer opens the poll loop; five pending poll answers in a
    // row exhaust it, whatever would have come afterwards.
    let classes = vec![
        pending(),
        pending(),
        pending(),
        pending(),
        pending(),
        pending(),
        document("{\"tp\":[]}"),
    ];
    let (outcome, _) = run_submit(classes, 5);
    match outcome {
        Some(SubmitOutcome::Failed { failure }) => {
            assert_eq!(failure.message(), "exhausted polling budget");
            assert_eq!(failure.kind(), ErrorKind::PollBudgetExhausted);
        }
        _ => panic!("expected a failed outcome"),
    }
}

#[test]
fn four_pending_polls_then_document_is_ready() {
    let classes =
        vec![pending(), pending(), pending(), pending(), pending(), document("{\"tp\":[]}")];
    let (outcome, rotations) = run_submit(classes, 5);
    assert!(matches!(outcome, Some(SubmitOutcome::Ready { .. })));
    assert_eq!(rotations, 0);
}

#[test]
fn fail_sentinel_rotates_and_retries() {
    let classes = vec![document("{\"result\":\"FAIL\"}"), document("{\"x\":1}")];
    let (outcome, rotations) = run_submit(classes, 1);
    assert!(matches!(outcome, Some(SubmitOutcome::Ready { .. })));
    assert_eq!(rotations, 1);
}

#[test]
fn transport_failure_is_retried_within_budget() {
    let transport = classify_response(RawResponse::Transport { detail: "timeout".to_string() });
    let classes = vec![transport, document("{\"x\":1}")];
    let (outcome, rotations) = run_submit(classes, 3);
    assert!(matches!(outcome, Some(SubmitOutcome::Ready { .. })));
    assert_eq!(rotations, 1);
}

#[test]
fn other_status_fails_at_once() {
    let classes = vec![classify_response(http(500, ""))];
    let (outcome, _) = run_submit(classes, 5);
    match outcome {
        Some(SubmitOutcome::Failed { failure }) => {
            assert_eq!(failure.kind(), ErrorKind::TransportError);
            assert!(matches!(failure, Failure::BadStatus { status: 500 }));
        }
        _ => panic!("expected a failed outcome"),
    }
}

#[test]
fn body_that_is_no_document_is_a_decode_failure() {
    let classes = classify_all(vec![http(200, "[1,2,3]")]);
    let (outcome, _) = run_submit(classes, 5);
    match outcome {
        Some(SubmitOutcome::Failed { failure }) => {
            assert_eq!(failure.kind(), ErrorKind::DecodeError);
        }
        _ => panic!("expected a failed outcome"),
    }
}

#[test]
fn bodies_are_trimmed_of_framing() {
    match classify_response(http(200, "  \"{\"x\":1}\"  ")) {
        ResponseClass::Document { body } => assert_eq!(body, "{\"x\":1}"),
        _ => panic!("expected a document"),
    }
}

#[test]
fn numeric_job_ids_are_accepted() {
    match classify_response(http(200, "{\"RID\":90144}")) {
        ResponseClass::Pending { rid } => assert_eq!(rid, "90144"),
        _ => panic!("expected a pending answer"),
    }
}

#[test]
fn job_id_wins_over_fail_sentinel() {
    match classify_response(http(200, "{\"RID\":\"r1\",\"result\":\"FAIL\"}")) {
        ResponseClass::Pending { rid } => assert_eq!(rid, "r1"),
        _ => panic!("expected a pending answer"),
    }
}

#[test]
fn incomplete_exchange_gives_no_outcome() {
    let (outcome, rotations) = run_submit(vec![blocked()], 3);
    assert!(outcome.is_none());
    assert_eq!(rotations, 1);
}
