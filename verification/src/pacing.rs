//! Minimum spacing between requests, on a millisecond clock.
use vstd::prelude::*;

verus! {

/// How long a request made at `now` has to wait for the moment `ready_at`.
pub open spec fn delay_until(ready_at: u64, now: u64) -> u64 {
    if ready_at > now {
        (ready_at - now) as u64
    } else {
        0
    }
}

/// Holds back requests until `interval` milliseconds after the last one was sent.
pub struct Pacer {
    pub next_ok: u64,
    pub interval: u64,
}

impl Pacer {
    /// A pacer that lets the first request through at `now`.
    pub fn new(now: u64, interval: u64) -> (p: Pacer)
        ensures
            p.next_ok == now,
            p.interval == interval,
    {
        Pacer { next_ok: now, interval }
    }

    /// Milliseconds a request made at `now` has to wait.
    pub fn wait_time(&self, now: u64) -> (w: u64)
        ensures
            w == delay_until(self.next_ok, now),
    {
        if self.next_ok > now {
            self.next_ok - now
        } else {
            0
        }
    }

    /// A request went out at `now`: the next one may go `interval` later.
    pub fn mark_sent(&mut self, now: u64)
        requires
            now + old(self).interval <= u64::MAX,
        ensures
            final(self).interval == old(self).interval,
            final(self).next_ok == now + old(self).interval,
    {
        self.next_ok = now + self.interval;
    }

    /// Moves the next slot one `interval` further, whatever the clock says.
    pub fn advance(&mut self)
        requires
            old(self).next_ok + old(self).interval <= u64::MAX,
        ensures
            final(self).interval == old(self).interval,
            final(self).next_ok == old(self).next_ok + old(self).interval,
    {
        self.next_ok = self.next_ok + self.interval;
    }
}

/// A request sent at `sent` through a pacer leaves at least `interval`
/// milliseconds before the next one, whenever that next one is asked for.
pub proof fn lemma_pacer_spacing(interval: u64, sent: u64, now: u64)
    requires
        sent + interval <= u64::MAX,
    ensures
        now + delay_until((sent + interval) as u64, now) >= sent + interval,
{
}

} // verus!
