//! The authorization result carried from the callback URL to the waiting
//! session: a code on success, a reason on failure.

use vstd::prelude::*;

verus! {

/// Result extracted from a provider callback.
#[derive(Debug)]
pub enum CallbackOutcome {
    Success { code: String },
    Failure { reason: String },
}

impl Clone for CallbackOutcome {
    fn clone(&self) -> (r: Self)
        ensures
            r == *self,
    {
        match self {
            CallbackOutcome::Success { code } => CallbackOutcome::Success { code: code.clone() },
            CallbackOutcome::Failure { reason } => CallbackOutcome::Failure {
                reason: reason.clone(),
            },
        }
    }
}

/// How a reported callback is read: a code, if present, wins over an error;
/// a report carrying neither names the missing result as the failure reason.
pub open spec fn is_classified(
    code: Option<String>,
    error: Option<String>,
    out: CallbackOutcome,
) -> bool {
    match code {
        Some(c) => out == (CallbackOutcome::Success { code: c }),
        None => match error {
            Some(e) => out == (CallbackOutcome::Failure { reason: e }),
            None => out matches CallbackOutcome::Failure { reason }
                && reason@ == "missing authorization result"@,
        },
    }
}

/// Turns the raw parameters of a reported callback into an outcome.
pub fn classify_callback(code: Option<String>, error: Option<String>) -> (r: CallbackOutcome)
    ensures
        is_classified(code, error, r),
{
    match code {
        Some(c) => CallbackOutcome::Success { code: c },
        None => match error {
            Some(e) => CallbackOutcome::Failure { reason: e },
            None => CallbackOutcome::Failure {
                reason: "missing authorization result".to_owned(),
            },
        },
    }
}

} // verus!
