//! The debounce scheduler: one logical delay slot in which a newly
//! scheduled delay cancels any prior uncompleted one.
//!
//! The scheduler only hands out tickets and decides which ticket is still
//! current; it knows nothing about suggestions. The host performs the actual
//! waiting and, once the delay has elapsed, asks whether the ticket it waited
//! on is still the most recent one. A cancelled wait is "do not proceed",
//! not an error.

use vstd::prelude::*;

verus! {

/// How long a debounced refresh waits before fetching, in milliseconds.
pub const COPILOTV2_DEBOUNCE_TIMEOUT_MS: u64 = 75;

/// A scheduled delay: the epoch it belongs to and how long to wait.
#[derive(Clone, Copy, Debug, PartialEq, Eq, Structural)]
pub struct DelayTicket {
    pub epoch: u64,
    pub delay_ms: u64,
}

/// One logical debounce slot.
pub struct DebounceScheduler {
    pub epoch: u64,
}

impl DebounceScheduler {
    pub fn new() -> (r: DebounceScheduler)
        ensures
            r.epoch == 0,
    {
        DebounceScheduler { epoch: 0 }
    }

    /// Schedules a new delay — the debounce timeout if `debounce` is set,
    /// an immediate wake otherwise — cancelling any prior ticket: after this
    /// call no earlier ticket is current any more.
    pub fn schedule(&mut self, debounce: bool) -> (t: DelayTicket)
        requires
            old(self).epoch < u64::MAX,
        ensures
            final(self).epoch == old(self).epoch + 1,
            t.epoch == final(self).epoch,
            t.delay_ms == if debounce {
                COPILOTV2_DEBOUNCE_TIMEOUT_MS
            } else {
                0
            },
    {
        self.epoch = self.epoch + 1;
        DelayTicket {
            epoch: self.epoch,
            delay_ms: if debounce {
                COPILOTV2_DEBOUNCE_TIMEOUT_MS
            } else {
                0
            },
        }
    }

    /// Whether `t` is still the most recently scheduled ticket; a wait whose
    /// ticket is no longer current must not proceed.
    pub fn is_current(&self, t: &DelayTicket) -> (r: bool)
        ensures
            r == (t.epoch == self.epoch),
    {
        t.epoch == self.epoch
    }
}

/// Scheduling a new delay cancels every ticket handed out earlier: a ticket
/// from before the call can never be current afterwards.
pub proof fn lemma_schedule_cancels_prior(before: u64, t_epoch: u64)
    requires
        t_epoch <= before,
        before < u64::MAX,
    ensures
        t_epoch != before + 1,
{
}

} // verus!
