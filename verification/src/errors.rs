//! The error kinds every component of the crate reports, and the failures
//! the polling protocol surfaces. Transport details and decode messages
//! travel inside the failure value; fixed conditions (an exhausted budget)
//! carry a fixed message.

use vstd::prelude::*;
use vstd::string::StringExecFns;

use crate::text::{dec_digits, format_u64};

verus! {

/// The kinds of errors the library distinguishes. Transport and upstream
/// rejections are retried internally up to the caller-supplied budget
/// before surfacing; decode failures and an exhausted polling budget never
/// retry; invalid user input and an empty result are user-facing, not
/// defects.
#[derive(PartialEq, Eq, Structural, Clone, Copy, Debug)]
pub enum ErrorKind {
    TransportError,
    UpstreamRejected,
    DecodeError,
    PollBudgetExhausted,
    InvalidUserInput,
    NotFound,
}

/// One surfaced failure. The variants carry what the failing exchange
/// supplied; every failure renders as plain text through [`Failure::message`].
#[derive(Debug)]
pub enum Failure {
    /// The transport could not complete an exchange, after retries.
    Transport { detail: String },
    /// The upstream answered with a status that is neither success nor the
    /// evadable "blocked" status.
    BadStatus { status: u16 },
    /// An evadable response (blocked or explicitly rejected) arrived when
    /// the retry budget was already spent.
    RetryBudgetExhausted,
    /// The poll loop ran through all its iterations without a terminal
    /// answer.
    PollBudgetExhausted,
    /// A response body did not have the promised shape.
    Decode { detail: String },
    /// A query succeeded and found nothing.
    NotFound,
    /// User input did not fit what the current conversation step expects.
    InvalidInput,
}

impl Failure {
    /// The error kind of this failure, as the error-handling design names
    /// them.
    pub fn kind(&self) -> (k: ErrorKind)
        ensures
            k == self.kind_spec(),
    {
        match self {
            Failure::Transport { .. } => ErrorKind::TransportError,
            Failure::BadStatus { .. } => ErrorKind::TransportError,
            Failure::RetryBudgetExhausted => ErrorKind::UpstreamRejected,
            Failure::PollBudgetExhausted => ErrorKind::PollBudgetExhausted,
            Failure::Decode { .. } => ErrorKind::DecodeError,
            Failure::NotFound => ErrorKind::NotFound,
            Failure::InvalidInput => ErrorKind::InvalidUserInput,
        }
    }

    pub open spec fn kind_spec(&self) -> ErrorKind {
        match self {
            Failure::Transport { .. } => ErrorKind::TransportError,
            Failure::BadStatus { .. } => ErrorKind::TransportError,
            Failure::RetryBudgetExhausted => ErrorKind::UpstreamRejected,
            Failure::PollBudgetExhausted => ErrorKind::PollBudgetExhausted,
            Failure::Decode { .. } => ErrorKind::DecodeError,
            Failure::NotFound => ErrorKind::NotFound,
            Failure::InvalidInput => ErrorKind::InvalidUserInput,
        }
    }

    /// The user-facing text of this failure.
    pub fn message(&self) -> (r: String)
        ensures
            r@ == self.message_spec(),
    {
        match self {
            Failure::Transport { detail } => detail.clone(),
            Failure::BadStatus { status } => {
                let head = String::from_str("invalid response status from upstream: ");
                head.concat(format_u64(*status as u64).as_str())
            },
            Failure::RetryBudgetExhausted => String::from_str("exhausted retry budget"),
            Failure::PollBudgetExhausted => String::from_str("exhausted polling budget"),
            Failure::Decode { detail } => detail.clone(),
            Failure::NotFound => String::from_str("nothing found"),
            Failure::InvalidInput => String::from_str("invalid input"),
        }
    }

    pub open spec fn message_spec(&self) -> Seq<char> {
        match self {
            Failure::Transport { detail } => detail@,
            Failure::BadStatus { status } => "invalid response status from upstream: "@
                + dec_digits(*status as nat),
            Failure::RetryBudgetExhausted => "exhausted retry budget"@,
            Failure::PollBudgetExhausted => "exhausted polling budget"@,
            Failure::Decode { detail } => detail@,
            Failure::NotFound => "nothing found"@,
            Failure::InvalidInput => "invalid input"@,
        }
    }
}

} // verus!
