//! Outcome classification: every completed call yields exactly one
//! `CallOutcome`. A transport-level failure (no reply from the service at
//! all) is kept strictly apart from an application-level error carried
//! inside a successful reply: only the former may ever push the concurrency
//! controller to back off.

use vstd::prelude::*;
use crate::tpcb::Response;

verus! {

/// The application error code that marks an optimistic-concurrency conflict.
pub open spec fn conflict_code() -> Seq<char> {
    "40001"@
}

/// The label of exactly one completed call.
#[derive(Clone, Debug)]
pub enum CallOutcome {
    /// The service replied without an application error.
    Success { duration_ms: Option<u64>, retries: Option<u32> },
    /// The service replied, but the reply carried a business-level error.
    ApplicationError {
        message: String,
        code: Option<String>,
        duration_ms: Option<u64>,
        retries: Option<u32>,
    },
    /// The call never completed at the transport level.
    DispatchFailure { cause: String },
}

impl CallOutcome {
    /// An application error whose code is the conflict code.
    pub open spec fn spec_is_conflict(self) -> bool {
        &&& self matches CallOutcome::ApplicationError { code, .. }
        &&& code matches Some(c) && c@ == conflict_code()
    }

    /// Whether this outcome is a conflict-coded application error.
    pub fn is_conflict(&self) -> (r: bool)
        ensures
            r == self.spec_is_conflict(),
    {
        match self {
            CallOutcome::ApplicationError { code: Some(c), .. } => {
                let conflict: String = "40001".to_owned();
                *c == conflict
            },
            _ => false,
        }
    }
}

/// What classification does to a reply that arrived: a present error message
/// makes it an application error, its absence a success; the reply's
/// duration and retry count ride along either way.
pub open spec fn spec_classify_reply(reply: Response) -> CallOutcome {
    match reply.error {
        Some(message) => CallOutcome::ApplicationError {
            message,
            code: reply.error_code,
            duration_ms: reply.duration,
            retries: reply.retries,
        },
        None => CallOutcome::Success { duration_ms: reply.duration, retries: reply.retries },
    }
}

/// Classify a completed call. A transport error (`Err`, with its cause) is a
/// dispatch failure; a reply with an error message is an application error;
/// a reply without one is a success.
pub fn classify(result: Result<Response, String>) -> (r: CallOutcome)
    ensures
        result matches Ok(reply) ==> r == spec_classify_reply(reply),
        result matches Err(cause) ==> r == (CallOutcome::DispatchFailure { cause }),
{
    match result {
        Ok(reply) => match reply.error {
            Some(message) => CallOutcome::ApplicationError {
                message,
                code: reply.error_code,
                duration_ms: reply.duration,
                retries: reply.retries,
            },
            None => CallOutcome::Success { duration_ms: reply.duration, retries: reply.retries },
        },
        Err(cause) => CallOutcome::DispatchFailure { cause },
    }
}

} // verus!
