use vstd::prelude::*;
use crate::probe::{StatusReport, reports, status_report};
use crate::store::PollSnapshot;

verus! {

/// Milliseconds from `from` to `now` on a monotonic clock; none if the
/// clock reads earlier than `from`.
pub open spec fn elapsed_ms(from: u64, now: u64) -> int {
    if now >= from {
        now - from
    } else {
        0
    }
}

/// Whether a probe is due at `now`: always before the first probe, else once
/// `interval_secs` whole seconds have passed since the last one.
pub open spec fn due(last_check_ms: Option<u64>, now_ms: u64, interval_secs: u64) -> bool {
    match last_check_ms {
        None => true,
        Some(t) => elapsed_ms(t, now_ms) >= interval_secs * 1000,
    }
}

/// With a zero interval a probe is due on every tick.
pub proof fn lemma_zero_interval_always_due(last_check_ms: Option<u64>, now_ms: u64)
    ensures
        due(last_check_ms, now_ms, 0),
{
}

/// Before the first probe a probe is due, whatever the interval.
pub proof fn lemma_first_tick_probes(now_ms: u64, interval_secs: u64)
    ensures
        due(None, now_ms, interval_secs),
{
}

/// The poll scheduler's memory between ticks: when the last probe finished.
/// It reads the interval afresh on every tick, so a change applies at once.
pub struct Scheduler {
    last_check_ms: Option<u64>,
}

impl View for Scheduler {
    type V = Option<u64>;

    closed spec fn view(&self) -> Option<u64> {
        self.last_check_ms
    }
}

impl Scheduler {
    /// A scheduler that has not probed yet, so its first tick probes.
    pub fn new() -> (r: Scheduler)
        ensures
            r@ is None,
    {
        Scheduler { last_check_ms: None }
    }

    /// The time the last probe finished, if any.
    pub fn last_check_ms(&self) -> (r: Option<u64>)
        ensures
            r == self@,
    {
        self.last_check_ms
    }

    /// Whether the tick at `now_ms` probes, for the interval read at that tick.
    pub fn is_due(&self, now_ms: u64, interval_secs: u64) -> (r: bool)
        ensures
            r == due(self@, now_ms, interval_secs),
    {
        match self.last_check_ms {
            None => true,
            Some(t) => {
                let elapsed: u64 = if now_ms >= t {
                    now_ms - t
                } else {
                    0
                };
                elapsed / 1000 >= interval_secs
            },
        }
    }

    /// Ends a probe of the snapshot's services that finished at `now_ms`:
    /// remembers the time and reports the verdicts.
    pub fn finish(&mut self, now_ms: u64, snapshot: &PollSnapshot, verdicts: &Vec<bool>) -> (r:
        StatusReport)
        requires
            verdicts@.len() == snapshot.services@.len(),
        ensures
            final(self)@ == Some(now_ms),
            reports(r, snapshot.services@, verdicts@, snapshot.icon_set),
    {
        self.last_check_ms = Some(now_ms);
        status_report(&snapshot.services, verdicts, snapshot.icon_set)
    }
}

} // verus!
