//! The fixed-rate tick clock and the client's offset correction.
//!
//! Both roles count ticks; the server's count is authoritative and the
//! client's is an estimate kept ahead of it by enough ticks that a
//! client-tagged input arrives just in time, given the measured round
//! trip. The estimate converges step by step instead of jumping.

use vstd::prelude::*;

verus! {

/// A monotonic fixed-rate tick counter.
pub struct TickClock {
    pub tick: u64,
}

impl TickClock {
    pub fn new() -> (r: TickClock)
        ensures
            r.tick == 0,
    {
        TickClock { tick: 0 }
    }

    /// Advance by exactly one tick per fixed-duration simulation step.
    pub fn advance(&mut self)
        requires
            old(self).tick < u64::MAX,
        ensures
            final(self).tick == old(self).tick + 1,
    {
        self.tick = self.tick + 1;
    }
}

/// How many ticks ahead of the server the client should tag its inputs,
/// given a round-trip estimate in ticks: half the round trip, rounded up,
/// plus one tick of slack so the input is there when its tick runs.
pub fn target_lead(rtt_ticks: u64) -> (r: u64)
    requires
        rtt_ticks < u64::MAX - 2,
    ensures
        r == (rtt_ticks + 1) / 2 + 1,
{
    (rtt_ticks + 1) / 2 + 1
}

/// One convergence step of the client's lead estimate: move halfway
/// toward the target, always by at least one tick, never past it. Repeated
/// steps therefore reach the target and then stay.
pub fn converge_lead(current: u64, target: u64) -> (r: u64)
    ensures
        current == target ==> r == target,
        current < target ==> current < r <= target,
        current > target ==> target <= r < current,
{
    if current < target {
        let step = (target - current) / 2 + 1;
        current + step
    } else if current > target {
        let step = (current - target) / 2 + 1;
        current - step
    } else {
        current
    }
}

} // verus!
