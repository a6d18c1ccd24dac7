//! The submit/poll/retry protocol every upstream query runs. The upstream
//! answers a query either synchronously with the payload document, or with
//! a job id to poll, or with an explicit failure sentinel, or it blocks the
//! caller. One state machine hides this from callers: the driver issues an
//! exchange, classifies what came back, and steps the machine until it
//! finishes.
//!
//! Retries: a transport failure, a blocked status and an explicit
//! rejection are all evadable — the machine rotates the outbound identity
//! (counted in `rotations`; the driver draws a fresh identity on every
//! issued exchange) and re-submits while the caller-supplied retry budget
//! lasts, then fails with an exhausted retry budget. Any other non-success
//! status fails at once. A malformed body is a decode failure and never
//! retries. The poll loop is capped at [`POLL_BUDGET`] iterations,
//! independent of the retry budget; the driver sleeps two seconds before
//! each poll.

use vstd::prelude::*;
use vstd::string::StringExecFns;

use crate::errors::Failure;
use crate::json::{
    doc_of, field_of, is_object_doc, json_as_string, json_as_u64, json_get, json_is_object,
    json_parse, str_of, u64_of,
};
use crate::text::{dec_digits, format_u64, trim_frame, trim_spec};

verus! {

/// How many poll iterations one submission may use.
pub const POLL_BUDGET: u32 = 5;

/// What one HTTP exchange produced, before any interpretation.
pub enum RawResponse {
    /// The exchange itself failed (connection, timeout).
    Transport { detail: String },
    /// The exchange completed with a status code and a body.
    Http { status: u16, body: String },
}

/// What one response means to the protocol.
pub enum ResponseClass {
    /// Transport failure: evadable, retried within the budget.
    Transport { detail: String },
    /// The upstream blocked the caller: evadable.
    Blocked,
    /// Any other non-success status: fails at once.
    HardStatus { status: u16 },
    /// The body is not a JSON object: a decode failure, never retried.
    Malformed { detail: String },
    /// The explicit failure sentinel (`"result": "FAIL"`): evadable.
    Rejected,
    /// The job-correlation field is present: poll with this job id.
    Pending { rid: String },
    /// A final payload document, body trimmed of framing characters.
    Document { body: String },
}

/// Where a submission stands: about to (re-)submit, or polling a job.
pub enum Phase {
    Submitting,
    Polling { rid: String, polls_left: u32 },
}

pub struct ProtocolState {
    pub phase: Phase,
    /// Retries left for evadable failures.
    pub budget: u32,
    /// Identity rotations performed to evade failures.
    pub rotations: u32,
}

/// What a finished submission yields.
pub enum SubmitOutcome {
    Ready { payload: String },
    Failed { failure: Failure },
}

/// What the driver must do next.
pub enum ProtocolAction {
    /// Issue the original request afresh, with a newly rotated identity.
    IssueSubmit,
    /// Sleep the poll interval, then post the job id to the same endpoint.
    IssuePoll { rid: String },
    /// The submission is over.
    Finish { outcome: SubmitOutcome },
}

pub struct StepResult {
    pub state: ProtocolState,
    pub action: ProtocolAction,
}

pub open spec fn initial_state_spec(budget: u32) -> ProtocolState {
    ProtocolState { phase: Phase::Submitting, budget, rotations: 0 }
}

/// The protocol's answer to an evadable failure: rotate and re-submit
/// while the budget lasts, else fail with an exhausted retry budget.
pub open spec fn evade_spec(st: ProtocolState) -> StepResult {
    if st.budget == 0 {
        StepResult {
            state: st,
            action: ProtocolAction::Finish {
                outcome: SubmitOutcome::Failed { failure: Failure::RetryBudgetExhausted },
            },
        }
    } else {
        StepResult {
            state: ProtocolState {
                phase: Phase::Submitting,
                budget: (st.budget - 1) as u32,
                rotations: if st.rotations == u32::MAX {
                    u32::MAX
                } else {
                    (st.rotations + 1) as u32
                },
            },
            action: ProtocolAction::IssueSubmit,
        }
    }
}

/// One step of the protocol: from the current state and the class of the
/// response that arrived, to the next state and the driver's next action.
///
/// A pending answer met while submitting opens the poll loop with the full
/// poll budget; met while polling it spends one iteration, and the job id
/// first answered keeps being polled. Every evadable failure restarts the
/// submission from scratch.
pub open spec fn step_spec(st: ProtocolState, c: ResponseClass) -> StepResult {
    match c {
        ResponseClass::Transport { detail } => evade_spec(st),
        ResponseClass::Blocked => evade_spec(st),
        ResponseClass::Rejected => evade_spec(st),
        ResponseClass::HardStatus { status } => StepResult {
            state: st,
            action: ProtocolAction::Finish {
                outcome: SubmitOutcome::Failed { failure: Failure::BadStatus { status } },
            },
        },
        ResponseClass::Malformed { detail } => StepResult {
            state: st,
            action: ProtocolAction::Finish {
                outcome: SubmitOutcome::Failed { failure: Failure::Decode { detail } },
            },
        },
        ResponseClass::Pending { rid } => match st.phase {
            Phase::Submitting => StepResult {
                state: ProtocolState {
                    phase: Phase::Polling { rid, polls_left: POLL_BUDGET },
                    budget: st.budget,
                    rotations: st.rotations,
                },
                action: ProtocolAction::IssuePoll { rid },
            },
            Phase::Polling { rid: cur, polls_left } => {
                if polls_left <= 1 {
                    StepResult {
                        state: st,
                        action: ProtocolAction::Finish {
                            outcome: SubmitOutcome::Failed {
                                failure: Failure::PollBudgetExhausted,
                            },
                        },
                    }
                } else {
                    StepResult {
                        state: ProtocolState {
                            phase: Phase::Polling {
                                rid: cur,
                                polls_left: (polls_left - 1) as u32,
                            },
                            budget: st.budget,
                            rotations: st.rotations,
                        },
                        action: ProtocolAction::IssuePoll { rid: cur },
                    }
                }
            },
        },
        ResponseClass::Document { body } => StepResult {
            state: st,
            action: ProtocolAction::Finish { outcome: SubmitOutcome::Ready { payload: body } },
        },
    }
}

/// The fresh state of one submission, before the first exchange. The
/// driver's first action is always to issue the request.
pub fn submit_start(budget: u32) -> (r: ProtocolState)
    ensures
        r == initial_state_spec(budget),
{
    ProtocolState { phase: Phase::Submitting, budget, rotations: 0 }
}

/// One step of the protocol, exactly as `step_spec` says.
pub fn protocol_step(st: ProtocolState, c: ResponseClass) -> (r: StepResult)
    ensures
        r == step_spec(st, c),
{
    match c {
        ResponseClass::Transport { detail: _ } => evade(st),
        ResponseClass::Blocked => evade(st),
        ResponseClass::Rejected => evade(st),
        ResponseClass::HardStatus { status } => StepResult {
            state: st,
            action: ProtocolAction::Finish {
                outcome: SubmitOutcome::Failed { failure: Failure::BadStatus { status } },
            },
        },
        ResponseClass::Malformed { detail } => StepResult {
            state: st,
            action: ProtocolAction::Finish {
                outcome: SubmitOutcome::Failed { failure: Failure::Decode { detail } },
            },
        },
        ResponseClass::Pending { rid } => match st.phase {
            Phase::Submitting => {
                let action_rid = rid.clone();
                StepResult {
                    state: ProtocolState {
                        phase: Phase::Polling { rid, polls_left: POLL_BUDGET },
                        budget: st.budget,
                        rotations: st.rotations,
                    },
                    action: ProtocolAction::IssuePoll { rid: action_rid },
                }
            },
            Phase::Polling { rid: cur, polls_left } => {
                if polls_left <= 1 {
                    StepResult {
                        state: ProtocolState {
                            phase: Phase::Polling { rid: cur, polls_left },
                            budget: st.budget,
                            rotations: st.rotations,
                        },
                        action: ProtocolAction::Finish {
                            outcome: SubmitOutcome::Failed {
                                failure: Failure::PollBudgetExhausted,
                            },
                        },
                    }
                } else {
                    let action_rid = cur.clone();
                    StepResult {
                        state: ProtocolState {
                            phase: Phase::Polling { rid: cur, polls_left: polls_left - 1 },
                            budget: st.budget,
                            rotations: st.rotations,
                        },
                        action: ProtocolAction::IssuePoll { rid: action_rid },
                    }
                }
            },
        },
        ResponseClass::Document { body } => StepResult {
            state: st,
            action: ProtocolAction::Finish { outcome: SubmitOutcome::Ready { payload: body } },
        },
    }
}

fn evade(st: ProtocolState) -> (r: StepResult)
    ensures
        r == evade_spec(st),
{
    if st.budget == 0 {
        StepResult {
            state: st,
            action: ProtocolAction::Finish {
                outcome: SubmitOutcome::Failed { failure: Failure::RetryBudgetExhausted },
            },
        }
    } else {
        let rotations = if st.rotations == u32::MAX {
            u32::MAX
        } else {
            st.rotations + 1
        };
        StepResult {
            state: ProtocolState { phase: Phase::Submitting, budget: st.budget - 1, rotations },
            action: ProtocolAction::IssueSubmit,
        }
    }
}

/// What the class of a success body must be, over the named reads of the
/// trimmed body `t`: a body that is no JSON object is malformed; a `"RID"`
/// field (string or number) means pending with that job id; otherwise
/// `"result"` reading `"FAIL"` means rejected; anything else is the final
/// document, handed on trimmed and unchanged.
pub open spec fn body_classifies(t: Seq<char>, c: ResponseClass) -> bool {
    match doc_of(t) {
        None => c matches ResponseClass::Malformed { .. },
        Some(doc) => {
            if !is_object_doc(doc) {
                c matches ResponseClass::Malformed { .. }
            } else {
                match field_of(doc, "RID"@) {
                    Some(rid_value) => match str_of(rid_value) {
                        Some(s) => c matches ResponseClass::Pending { rid } && rid@ == s,
                        None => match u64_of(rid_value) {
                            Some(n) => c matches ResponseClass::Pending { rid } && rid@
                                == dec_digits(n as nat),
                            None => c matches ResponseClass::Malformed { .. },
                        },
                    },
                    None => {
                        let rejected = match field_of(doc, "result"@) {
                            Some(result_value) => str_of(result_value) == Some("FAIL"@),
                            None => false,
                        };
                        if rejected {
                            c is Rejected
                        } else {
                            c matches ResponseClass::Document { body } && body@ == t
                        }
                    },
                }
            }
        },
    }
}

/// What the class of any exchange must be: a transport failure keeps its
/// detail, the blocked status is 403, any other non-success status is
/// hard, and a success body classifies by its named reads, trimmed.
pub open spec fn classifies(r: RawResponse, c: ResponseClass) -> bool {
    match r {
        RawResponse::Transport { detail } => c == ResponseClass::Transport { detail },
        RawResponse::Http { status, body } => {
            if status == 403 {
                c == ResponseClass::Blocked
            } else if status != 200 {
                c == ResponseClass::HardStatus { status }
            } else {
                body_classifies(trim_spec(body@), c)
            }
        },
    }
}

/// Classifies what one exchange produced, exactly as `classifies` says.
pub fn classify_response(r: RawResponse) -> (c: ResponseClass)
    ensures
        classifies(r, c),
{
    match r {
        RawResponse::Transport { detail } => ResponseClass::Transport { detail },
        RawResponse::Http { status, body } => {
            if status == 403 {
                return ResponseClass::Blocked;
            }
            if status != 200 {
                return ResponseClass::HardStatus { status };
            }
            let trimmed = trim_frame(body.as_str());
            let doc = match json_parse(trimmed) {
                Ok(v) => v,
                Err(detail) => {
                    return ResponseClass::Malformed { detail };
                },
            };
            if !json_is_object(&doc) {
                return ResponseClass::Malformed {
                    detail: String::from_str("response body is not a document"),
                };
            }
            match json_get(&doc, "RID") {
                Some(rid_value) => {
                    // The job id is usually a number, sometimes a string.
                    match json_as_string(rid_value) {
                        Some(rid) => ResponseClass::Pending { rid },
                        None => match json_as_u64(rid_value) {
                            Some(n) => ResponseClass::Pending { rid: format_u64(n) },
                            None => ResponseClass::Malformed {
                                detail: String::from_str("job id of unexpected shape"),
                            },
                        },
                    }
                },
                None => {
                    let rejected = match json_get(&doc, "result") {
                        Some(result_value) => match json_as_string(result_value) {
                            Some(text) => is_fail_sentinel(text.as_str()),
                            None => false,
                        },
                        None => false,
                    };
                    if rejected {
                        ResponseClass::Rejected
                    } else {
                        ResponseClass::Document { body: String::from_str(trimmed) }
                    }
                },
            }
        },
    }
}

fn is_fail_sentinel(s: &str) -> (r: bool)
    ensures
        r == (s@ == "FAIL"@),
{
    crate::text::str_eq(s, "FAIL")
}

/// A whole submission run over a sequence of response classes: steps from
/// the initial state until an action finishes it. `None` with the
/// rotations so far when the sequence ends before the protocol does.
pub open spec fn submit_run_spec(classes: Seq<ResponseClass>, st: ProtocolState) -> (Option<
    SubmitOutcome,
>, u32)
    decreases classes.len(),
{
    if classes.len() == 0 {
        (None::<SubmitOutcome>, st.rotations)
    } else {
        let r = step_spec(st, classes[0]);
        match r.action {
            ProtocolAction::Finish { outcome } => (Some(outcome), r.state.rotations),
            _ => submit_run_spec(classes.drop_first(), r.state),
        }
    }
}

/// Runs one submission over a pre-classified response sequence, exactly as
/// `submit_run_spec` says. This is the deterministic form of the protocol:
/// a driver with a live transport steps `protocol_step` the same way, one
/// response at a time.
pub fn run_submit(classes: Vec<ResponseClass>, budget: u32) -> (r: (Option<SubmitOutcome>, u32))
    ensures
        r == submit_run_spec(classes@, initial_state_spec(budget)),
{
    let ghost full = classes@;
    let mut cs = classes;
    let mut st = submit_start(budget);
    let ghost init = st;
    while cs.len() > 0
        invariant
            full == classes@,
            init == initial_state_spec(budget),
            submit_run_spec(full, init) == submit_run_spec(cs@, st),
        decreases cs@.len(),
    {
        let ghost before = cs@;
        let c = cs.remove(0);
        proof {
            assert(cs@ =~= before.drop_first());
            assert(c == before[0]);
        }
        let res = protocol_step(st, c);
        match res.action {
            ProtocolAction::Finish { outcome } => {
                return (Some(outcome), res.state.rotations);
            },
            _ => {
                st = res.state;
            },
        }
    }
    (None, st.rotations)
}

} // verus!
