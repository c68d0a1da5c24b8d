//! Single-slot, write-once handoff from the navigation observer to the
//! waiting session: the first outcome written stays; later writes are
//! ignored; reads never consume.

use crate::outcome::{classify_callback, is_classified, CallbackOutcome};
use vstd::prelude::*;

verus! {

/// The one slot shared between the observer that detects the redirect and
/// the coordinator that waits for it.
pub struct CallbackChannel {
    slot: Option<CallbackOutcome>,
}

impl CallbackChannel {
    /// The slot's current contents.
    pub closed spec fn slot_view(&self) -> Option<CallbackOutcome> {
        self.slot
    }

    /// A fresh channel holds nothing.
    pub fn new() -> (r: Self)
        ensures
            r.slot_view() is None,
    {
        CallbackChannel { slot: None }
    }

    /// Empties the slot, so a stale outcome cannot be misattributed to a new
    /// session.
    pub fn clear(&mut self)
        ensures
            final(self).slot_view() is None,
    {
        self.slot = None;
    }

    /// Writes the outcome if the slot is empty; a write to a filled slot is
    /// ignored. Returns whether the write took.
    pub fn offer(&mut self, outcome: CallbackOutcome) -> (accepted: bool)
        ensures
            accepted == (old(self).slot_view() is None),
            final(self).slot_view() == if old(self).slot_view() is None {
                Some(outcome)
            } else {
                old(self).slot_view()
            },
    {
        match &self.slot {
            Some(_) => false,
            None => {
                self.slot = Some(outcome);
                true
            },
        }
    }

    /// Reads the slot without consuming it.
    pub fn peek(&self) -> (r: Option<CallbackOutcome>)
        ensures
            r == self.slot_view(),
    {
        match &self.slot {
            Some(o) => Some(o.clone()),
            None => None,
        }
    }
}

/// Routes a reported callback into the channel: classifies the raw `code` /
/// `error` parameters and offers the outcome; the first report wins.
pub fn report_callback(channel: &mut CallbackChannel, code: Option<String>, error: Option<String>)
    ensures
        old(channel).slot_view() is Some ==> final(channel).slot_view() == old(
            channel,
        ).slot_view(),
        old(channel).slot_view() is None ==> (final(channel).slot_view() matches Some(out)
            && is_classified(code, error, out)),
{
    let outcome = classify_callback(code, error);
    channel.offer(outcome);
}

} // verus!
