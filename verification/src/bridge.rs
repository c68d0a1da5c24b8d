//! The bridge's outward face: authorization URL validation, the session's
//! return contract, and the composition of a whole authorization attempt.
//!
//! A succeeded or failed session is a normal result; only a timed-out
//! session surfaces as a hard error, so a caller can tell "the user got an
//! answer" from "we gave up waiting."

use crate::errors::BridgeError;
use crate::session::{
    decision_at, first_finish_tick, run_session, PollObservation, SessionOutcome, TickDecision,
};
use crate::strutil::has_prefix;
use vstd::prelude::*;

verus! {

/// What a completed (non-timed-out) session hands back to the caller.
#[derive(Debug)]
pub struct AuthResult {
    pub success: bool,
    pub code: Option<String>,
    pub reason: Option<String>,
}

/// A well-formed authorization URL: an http or https scheme followed by a
/// non-empty remainder.
pub open spec fn spec_valid_auth_url(s: Seq<char>) -> bool {
    ("https://"@.is_prefix_of(s) && s.len() > "https://"@.len()) || ("http://"@.is_prefix_of(s)
        && s.len() > "http://"@.len())
}

/// Checks that a caller-supplied authorization URL is well-formed enough to
/// navigate a surface to it.
pub fn is_valid_auth_url(s: &str) -> (r: bool)
    ensures
        r == spec_valid_auth_url(s@),
{
    let n = s.unicode_len();
    let https = has_prefix(s, "https://");
    let http = has_prefix(s, "http://");
    proof {
        reveal_strlit("https://");
        reveal_strlit("http://");
    }
    (https && n > 8) || (http && n > 7)
}

/// The return contract of a terminal session: a success carries its code, a
/// failure or cancellation carries its reason as a normal result, and only a
/// timeout becomes a hard error.
pub fn session_result(outcome: SessionOutcome) -> (r: Result<AuthResult, BridgeError>)
    ensures
        match outcome {
            SessionOutcome::Succeeded { code } => r == Ok::<AuthResult, BridgeError>(
                AuthResult { success: true, code: Some(code), reason: None },
            ),
            SessionOutcome::Failed { reason } => r == Ok::<AuthResult, BridgeError>(
                AuthResult { success: false, code: None, reason: Some(reason) },
            ),
            SessionOutcome::Cancelled => (r matches Ok(a) && a.success == false && a.code is None
                && (a.reason matches Some(why) && why@ == "user_cancelled"@)),
            SessionOutcome::TimedOut => r == Err::<AuthResult, BridgeError>(
                BridgeError::AuthorizationTimeout,
            ),
        },
{
    match outcome {
        SessionOutcome::Succeeded { code } => Ok(
            AuthResult { success: true, code: Some(code), reason: None },
        ),
        SessionOutcome::Failed { reason } => Ok(
            AuthResult { success: false, code: None, reason: Some(reason) },
        ),
        SessionOutcome::Cancelled => Ok(
            AuthResult {
                success: false,
                code: None,
                reason: Some("user_cancelled".to_owned()),
            },
        ),
        SessionOutcome::TimedOut => Err(BridgeError::AuthorizationTimeout),
    }
}

/// One whole authorization attempt over a recorded observation sequence: a
/// malformed URL is rejected before any surface exists; otherwise the
/// session runs to its single terminal outcome and is reported under the
/// return contract.
pub fn run_authorization(auth_url: &str, obs: &Vec<PollObservation>) -> (r: Result<
    AuthResult,
    BridgeError,
>)
    ensures
        !spec_valid_auth_url(auth_url@) ==> (r matches Err(e) && e matches
            BridgeError::InvalidInput { message } && message@ == "invalid authorization URL"@),
        spec_valid_auth_url(auth_url@) ==> ({
            let d = decision_at(obs@, first_finish_tick(obs@));
            &&& d is Finish
            &&& (d matches TickDecision::Finish { outcome } ==> match outcome {
                SessionOutcome::Succeeded { code } => r == Ok::<AuthResult, BridgeError>(
                    AuthResult { success: true, code: Some(code), reason: None },
                ),
                SessionOutcome::Failed { reason } => r == Ok::<AuthResult, BridgeError>(
                    AuthResult { success: false, code: None, reason: Some(reason) },
                ),
                SessionOutcome::Cancelled => (r matches Ok(a) && a.success == false
                    && a.code is None && (a.reason matches Some(why) && why@
                    == "user_cancelled"@)),
                SessionOutcome::TimedOut => r == Err::<AuthResult, BridgeError>(
                    BridgeError::AuthorizationTimeout,
                ),
            })
        }),
{
    if !is_valid_auth_url(auth_url) {
        return Err(
            BridgeError::InvalidInput { message: "invalid authorization URL".to_owned() },
        );
    }
    let run = run_session(obs);
    session_result(run.outcome)
}

} // verus!
