//! Authorization session coordinator: the wait loop's decision logic.
//!
//! While a session is awaiting its result, the coordinator re-evaluates, on a
//! fixed polling cadence, three conditions in strict priority order: a
//! delivered callback outcome wins over a closed surface, which wins over an
//! elapsed deadline. The decision at each tick is a pure function of what was
//! observed at that tick, so the whole session is a pure function of the
//! observation sequence; the host only performs the sleeping and the window
//! queries between ticks.

use crate::channel::{report_callback, CallbackChannel};
use crate::outcome::{is_classified, CallbackOutcome};
use vstd::prelude::*;

verus! {

/// Fixed session deadline, in milliseconds.
pub const AUTH_TIMEOUT_MS: u64 = 300000;

/// Fixed polling cadence, in milliseconds.
pub const POLL_INTERVAL_MS: u64 = 100;

/// Number of polls after which the deadline has certainly elapsed.
pub const MAX_POLL_TICKS: u64 = 3000;

/// What the coordinator sees at one poll tick: the callback slot's contents
/// and whether the authorization surface still exists.
pub struct PollObservation {
    pub callback: Option<CallbackOutcome>,
    pub surface_alive: bool,
}

/// The four terminal states of a session.
#[derive(Debug)]
pub enum SessionOutcome {
    Succeeded { code: String },
    Failed { reason: String },
    Cancelled,
    TimedOut,
}

/// What one poll tick decides: keep waiting, or stop with an outcome.
#[derive(Debug)]
pub enum TickDecision {
    Continue,
    Finish { outcome: SessionOutcome },
}

/// The transition rule of the session state machine, in its strict priority
/// order: a delivered outcome first, then user cancellation, then the
/// deadline; otherwise the session stays awaiting.
pub open spec fn spec_decide(
    callback: Option<CallbackOutcome>,
    surface_alive: bool,
    elapsed_ms: int,
) -> TickDecision {
    match callback {
        Some(CallbackOutcome::Success { code }) => TickDecision::Finish {
            outcome: SessionOutcome::Succeeded { code },
        },
        Some(CallbackOutcome::Failure { reason }) => TickDecision::Finish {
            outcome: SessionOutcome::Failed { reason },
        },
        None => if !surface_alive {
            TickDecision::Finish { outcome: SessionOutcome::Cancelled }
        } else if elapsed_ms >= AUTH_TIMEOUT_MS {
            TickDecision::Finish { outcome: SessionOutcome::TimedOut }
        } else {
            TickDecision::Continue
        },
    }
}

/// Evaluates one poll tick. A callback outcome present in the same tick as a
/// closed surface or an elapsed deadline still decides the session, so a
/// result is never mis-reported as cancellation or timeout.
pub fn decide_tick(callback: &Option<CallbackOutcome>, surface_alive: bool, elapsed_ms: u64) -> (d:
    TickDecision)
    ensures
        d == spec_decide(*callback, surface_alive, elapsed_ms as int),
{
    match callback {
        Some(o) => TickDecision::Finish {
            outcome: match o {
                CallbackOutcome::Success { code } => SessionOutcome::Succeeded {
                    code: code.clone(),
                },
                CallbackOutcome::Failure { reason } => SessionOutcome::Failed {
                    reason: reason.clone(),
                },
            },
        },
        None => if !surface_alive {
            TickDecision::Finish { outcome: SessionOutcome::Cancelled }
        } else if elapsed_ms >= AUTH_TIMEOUT_MS {
            TickDecision::Finish { outcome: SessionOutcome::TimedOut }
        } else {
            TickDecision::Continue
        },
    }
}

/// One bridge invocation: the surface's identifier, the session's creation
/// time, and its outcome slot. The deadline is the creation time plus the
/// fixed timeout. The slot fills at most once; the coordinator owns the
/// session exclusively for its duration, so no state leaks across sessions.
pub struct AuthorizationSession {
    pub label: String,
    pub created_at_ms: u64,
    pub channel: CallbackChannel,
}

impl AuthorizationSession {
    /// A fresh session: its identifier, its creation time, and an empty
    /// outcome slot, so nothing stale can be misattributed to it.
    pub fn start(label: String, created_at_ms: u64) -> (r: Self)
        ensures
            r.label == label,
            r.created_at_ms == created_at_ms,
            r.channel.slot_view() is None,
    {
        AuthorizationSession { label, created_at_ms, channel: CallbackChannel::new() }
    }

    /// The instant the session's deadline passes.
    pub open spec fn deadline_ms(&self) -> int {
        self.created_at_ms + AUTH_TIMEOUT_MS
    }

    /// Routes a reported callback into the session's outcome slot: the slot
    /// transitions empty-to-filled exactly once, so the first report decides
    /// and later ones are ignored.
    pub fn report(&mut self, code: Option<String>, error: Option<String>)
        ensures
            final(self).label == old(self).label,
            final(self).created_at_ms == old(self).created_at_ms,
            old(self).channel.slot_view() is Some ==> final(self).channel.slot_view() == old(
                self,
            ).channel.slot_view(),
            old(self).channel.slot_view() is None ==> (final(self).channel.slot_view() matches Some(
                out,
            ) && is_classified(code, error, out)),
    {
        report_callback(&mut self.channel, code, error);
    }

    /// Evaluates the session at wall time `now_ms`: the transition rule
    /// applied to the slot's contents, the surface's liveness, and the time
    /// elapsed since creation.
    pub fn poll(&self, surface_alive: bool, now_ms: u64) -> (d: TickDecision)
        requires
            now_ms >= self.created_at_ms,
        ensures
            d == spec_decide(
                self.channel.slot_view(),
                surface_alive,
                now_ms - self.created_at_ms,
            ),
    {
        let slot = self.channel.peek();
        decide_tick(&slot, surface_alive, now_ms - self.created_at_ms)
    }
}

/// What the environment showed at tick `t` of an observation sequence: past
/// the recorded observations nothing more happens, so the slot stays empty
/// and the surface stays alive.
pub open spec fn observed(obs: Seq<PollObservation>, t: int) -> PollObservation {
    if 0 <= t < obs.len() {
        obs[t]
    } else {
        PollObservation { callback: None, surface_alive: true }
    }
}

/// The decision the coordinator takes at tick `t`.
pub open spec fn decision_at(obs: Seq<PollObservation>, t: int) -> TickDecision {
    spec_decide(observed(obs, t).callback, observed(obs, t).surface_alive, t * POLL_INTERVAL_MS)
}

/// The first tick at or after `t` whose decision is not to continue; the
/// search can stop at the deadline tick, which never continues.
pub open spec fn first_finish_from(obs: Seq<PollObservation>, t: int) -> int
    decreases MAX_POLL_TICKS - t,
{
    if t < 0 || t >= MAX_POLL_TICKS {
        MAX_POLL_TICKS as int
    } else if decision_at(obs, t) is Finish {
        t
    } else {
        first_finish_from(obs, t + 1)
    }
}

/// The tick at which a session over this observation sequence ends.
pub open spec fn first_finish_tick(obs: Seq<PollObservation>) -> int {
    first_finish_from(obs, 0)
}

/// Any tick at or past the deadline decides the session.
pub proof fn lemma_deadline_tick_finishes(obs: Seq<PollObservation>, t: int)
    requires
        t >= MAX_POLL_TICKS,
    ensures
        decision_at(obs, t) is Finish,
{
}

/// What `first_finish_from` returns: the least deciding tick at or after
/// `t`, and it does decide.
pub proof fn lemma_first_finish_from(obs: Seq<PollObservation>, t: int)
    requires
        0 <= t <= MAX_POLL_TICKS,
    ensures
        t <= first_finish_from(obs, t) <= MAX_POLL_TICKS,
        decision_at(obs, first_finish_from(obs, t)) is Finish,
        forall|j: int| t <= j < first_finish_from(obs, t) ==> decision_at(obs, j) is Continue,
    decreases MAX_POLL_TICKS - t,
{
    if t == MAX_POLL_TICKS {
        lemma_deadline_tick_finishes(obs, t);
    } else if decision_at(obs, t) is Finish {
    } else {
        lemma_first_finish_from(obs, t + 1);
    }
}

/// How a session ended: its terminal outcome, the tick at which it ended,
/// and whether the coordinator itself had to close a still-open surface.
#[derive(Debug)]
pub struct SessionRun {
    pub outcome: SessionOutcome,
    pub ticks: u64,
    pub closed_by_coordinator: bool,
}

/// Runs a whole session against an observation sequence, one entry per poll
/// tick. Every session reaches exactly one terminal outcome: the one decided
/// at the first non-continuing tick, which arrives no later than one poll
/// past the deadline. On a timeout with the surface still open, the
/// coordinator closes it; no other path leaves that to the coordinator.
pub fn run_session(obs: &Vec<PollObservation>) -> (r: SessionRun)
    ensures
        r.ticks == first_finish_tick(obs@),
        r.ticks <= MAX_POLL_TICKS,
        r.ticks * POLL_INTERVAL_MS <= AUTH_TIMEOUT_MS,
        decision_at(obs@, r.ticks as int) == (TickDecision::Finish { outcome: r.outcome }),
        forall|t: int| 0 <= t < r.ticks ==> decision_at(obs@, t) is Continue,
        r.outcome is TimedOut ==> r.ticks * POLL_INTERVAL_MS >= AUTH_TIMEOUT_MS,
        r.closed_by_coordinator == (r.outcome is TimedOut && observed(
            obs@,
            r.ticks as int,
        ).surface_alive),
{
    let quiet = PollObservation { callback: None, surface_alive: true };
    let mut tick: u64 = 0;
    loop
        invariant
            tick <= MAX_POLL_TICKS,
            quiet.callback is None && quiet.surface_alive,
            forall|t: int| 0 <= t < tick ==> decision_at(obs@, t) is Continue,
        decreases MAX_POLL_TICKS - tick,
    {
        let ob: &PollObservation = if (tick as usize) < obs.len() {
            &obs[tick as usize]
        } else {
            &quiet
        };
        proof {
            assert(*ob == observed(obs@, tick as int));
        }
        let elapsed_ms = tick * POLL_INTERVAL_MS;
        let d = decide_tick(&ob.callback, ob.surface_alive, elapsed_ms);
        match d {
            TickDecision::Finish { outcome } => {
                proof {
                    lemma_first_finish_from(obs@, 0);
                    let ff = first_finish_tick(obs@);
                    if ff < tick {
                        assert(decision_at(obs@, ff) is Continue);
                        assert(false);
                    }
                    if ff > tick {
                        assert(decision_at(obs@, tick as int) is Continue);
                        assert(false);
                    }
                }
                let timed_out = match outcome {
                    SessionOutcome::TimedOut => true,
                    _ => false,
                };
                return SessionRun {
                    closed_by_coordinator: timed_out && ob.surface_alive,
                    outcome,
                    ticks: tick,
                };
            },
            TickDecision::Continue => {
                proof {
                    // a tick at or past the deadline never continues
                    assert(elapsed_ms < AUTH_TIMEOUT_MS);
                    assert(tick < MAX_POLL_TICKS);
                }
                tick = tick + 1;
            },
        }
    }
}

/// A callback outcome observed in a tick decides the session the same way
/// whether or not the surface was closed in that same tick, and never as
/// cancellation or timeout.
pub proof fn lemma_callback_outcome_wins(o: CallbackOutcome, elapsed_ms: int)
    ensures
        spec_decide(Some(o), false, elapsed_ms) == spec_decide(Some(o), true, elapsed_ms),
        spec_decide(Some(o), false, elapsed_ms) matches TickDecision::Finish { outcome }
            && (outcome matches SessionOutcome::Succeeded { code } ==> o == (
        CallbackOutcome::Success { code })) && (outcome matches SessionOutcome::Failed { reason }
            ==> o == (CallbackOutcome::Failure { reason })) && !(outcome is Cancelled) && !(outcome
            is TimedOut),
{
}

} // verus!
