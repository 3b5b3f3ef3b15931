//! Interpolation of remote entities between confirmed snapshots.
//!
//! An entity the local peer does not predict is displayed at a
//! time-smoothed blend of its two most recent confirmed snapshots,
//! sampled at the current tick minus a configurable delay. The blend
//! never leaves the segment between the two snapshots, so a remote entity
//! never jumps to a raw snapshot.

use vstd::prelude::*;

use crate::protocol::PlayerPosition;

verus! {

/// How many ticks behind the newest data a remote entity is displayed.
pub const INTERPOLATION_DELAY_TICKS: u64 = 3;

/// Largest coordinate magnitude the blend accepts.
pub const LERP_COORD_LIMIT: i64 = 0x4000_0000;

/// Largest snapshot gap, in ticks, the blend accepts.
pub const LERP_GAP_LIMIT: u64 = 0x0010_0000;

/// One confirmed server state of an entity at a tick.
#[derive(Clone, Copy, Debug, PartialEq, Eq, Structural)]
pub struct Snapshot {
    pub tick: u64,
    pub position: PlayerPosition,
}

/// The value `num/den` of the way from `a` to `b`, rounded toward `a`.
pub open spec fn spec_lerp(a: i64, b: i64, num: u64, den: u64) -> i64 {
    if b >= a {
        (a + (b - a) * (num as int) / (den as int)) as i64
    } else {
        (a - (a - b) * (num as int) / (den as int)) as i64
    }
}

/// The displayed position a snapshot window yields at a sample tick:
/// clamped to the window's ends, proportionally blended in between.
pub open spec fn spec_blend(older: Snapshot, newer: Snapshot, sample_tick: u64) -> PlayerPosition {
    if sample_tick >= newer.tick {
        newer.position
    } else if sample_tick <= older.tick {
        older.position
    } else {
        let num = (sample_tick - older.tick) as u64;
        let den = (newer.tick - older.tick) as u64;
        PlayerPosition {
            x: spec_lerp(older.position.x, newer.position.x, num, den),
            y: spec_lerp(older.position.y, newer.position.y, num, den),
        }
    }
}

/// The tick a remote entity is sampled at: the current tick held back by
/// the interpolation delay, never before the start of time.
pub open spec fn spec_render_tick(now_tick: u64) -> u64 {
    if now_tick >= INTERPOLATION_DELAY_TICKS {
        (now_tick - INTERPOLATION_DELAY_TICKS) as u64
    } else {
        0
    }
}

/// A fraction `num/den` of a non-negative distance never exceeds the
/// distance itself.
proof fn lemma_scaled_fraction_bounded(diff: int, num: int, den: int)
    requires
        diff >= 0,
        den > 0,
        0 <= num <= den,
    ensures
        0 <= diff * num / den <= diff,
        diff < 0x1_0000_0000 && num <= 0x10_0000 ==> diff * num < 0x10_0000_0000_0000,
{
    assert(diff < 0x1_0000_0000 && num <= 0x10_0000 ==> diff * num < 0x10_0000_0000_0000)
        by (nonlinear_arith)
        requires
            diff >= 0,
            num >= 0,
    ;
    assert(diff * num <= diff * den) by (nonlinear_arith)
        requires
            diff >= 0,
            num <= den,
    ;
    assert(diff * num >= 0) by (nonlinear_arith)
        requires
            diff >= 0,
            num >= 0,
    ;
    assert(diff * den / den == diff) by (nonlinear_arith)
        requires
            den > 0,
    ;
    assert(diff * num / den <= diff * den / den) by (nonlinear_arith)
        requires
            den > 0,
            diff * num <= diff * den,
    ;
    assert(diff * num / den >= 0) by (nonlinear_arith)
        requires
            den > 0,
            diff * num >= 0,
    ;
}

/// Linear blend of one coordinate, `num/den` of the way from `a` to `b`,
/// rounded toward `a`. The result never leaves the closed interval
/// between `a` and `b`.
pub fn lerp_coord(a: i64, b: i64, num: u64, den: u64) -> (r: i64)
    requires
        0 < den <= LERP_GAP_LIMIT,
        num <= den,
        -LERP_COORD_LIMIT < a < LERP_COORD_LIMIT,
        -LERP_COORD_LIMIT < b < LERP_COORD_LIMIT,
    ensures
        b >= a ==> r == a + (b - a) * (num as int) / (den as int),
        b < a ==> r == a - (a - b) * (num as int) / (den as int),
        a <= b ==> a <= r <= b,
        b <= a ==> b <= r <= a,
{
    if b >= a {
        let diff = (b - a) as u64;
        proof {
            lemma_scaled_fraction_bounded(diff as int, num as int, den as int);
        }
        let blended = diff * num / den;
        a + (blended as i64)
    } else {
        let diff = (a - b) as u64;
        proof {
            lemma_scaled_fraction_bounded(diff as int, num as int, den as int);
        }
        let blended = diff * num / den;
        a - (blended as i64)
    }
}

/// Sample the blend between two snapshots at `render_tick`: at or before
/// the older snapshot it is the older position, at or past the newer it
/// is the newer one, and in between it is the exact proportional blend.
pub fn interpolated_position(older: Snapshot, newer: Snapshot, render_tick: u64) -> (r:
    PlayerPosition)
    requires
        older.tick <= newer.tick,
        older.tick == newer.tick ==> older == newer,
        newer.tick - older.tick <= LERP_GAP_LIMIT,
        -LERP_COORD_LIMIT < older.position.x < LERP_COORD_LIMIT,
        -LERP_COORD_LIMIT < older.position.y < LERP_COORD_LIMIT,
        -LERP_COORD_LIMIT < newer.position.x < LERP_COORD_LIMIT,
        -LERP_COORD_LIMIT < newer.position.y < LERP_COORD_LIMIT,
    ensures
        r == spec_blend(older, newer, render_tick),
{
    if render_tick >= newer.tick {
        newer.position
    } else if render_tick <= older.tick {
        older.position
    } else {
        let num = render_tick - older.tick;
        let den = newer.tick - older.tick;
        let x = lerp_coord(older.position.x, newer.position.x, num, den);
        let y = lerp_coord(older.position.y, newer.position.y, num, den);
        proof {
            assert(x == spec_lerp(older.position.x, newer.position.x, num, den));
            assert(y == spec_lerp(older.position.y, newer.position.y, num, den));
        }
        PlayerPosition { x, y }
    }
}

/// The two most recent confirmed snapshots of one remote entity.
#[derive(Clone, Copy, Debug, PartialEq, Eq, Structural)]
pub struct InterpolationState {
    pub older: Snapshot,
    pub newer: Snapshot,
}

impl InterpolationState {
    /// Snapshots are kept in tick order, and a window of one snapshot
    /// holds it twice.
    pub open spec fn wf(self) -> bool {
        &&& self.older.tick <= self.newer.tick
        &&& self.older.tick == self.newer.tick ==> self.older == self.newer
    }

    /// Start from a single confirmed snapshot.
    pub fn new(first: Snapshot) -> (r: InterpolationState)
        ensures
            r.wf(),
            r.older == first,
            r.newer == first,
    {
        InterpolationState { older: first, newer: first }
    }

    /// The position shown for this entity at `now_tick`: the window
    /// sampled `INTERPOLATION_DELAY_TICKS` behind the present, a
    /// time-smoothed blend between the two most recent confirmed
    /// snapshots — never a raw snapshot jump.
    pub fn display(&self, now_tick: u64) -> (r: PlayerPosition)
        requires
            self.wf(),
            self.newer.tick - self.older.tick <= LERP_GAP_LIMIT,
            -LERP_COORD_LIMIT < self.older.position.x < LERP_COORD_LIMIT,
            -LERP_COORD_LIMIT < self.older.position.y < LERP_COORD_LIMIT,
            -LERP_COORD_LIMIT < self.newer.position.x < LERP_COORD_LIMIT,
            -LERP_COORD_LIMIT < self.newer.position.y < LERP_COORD_LIMIT,
        ensures
            r == spec_blend(self.older, self.newer, spec_render_tick(now_tick)),
    {
        let render = if now_tick >= INTERPOLATION_DELAY_TICKS {
            now_tick - INTERPOLATION_DELAY_TICKS
        } else {
            0
        };
        interpolated_position(self.older, self.newer, render)
    }

    /// Take one more confirmed snapshot: a newer one shifts the window
    /// forward, a stale or duplicate one is dropped.
    pub fn push(&mut self, snapshot: Snapshot)
        requires
            old(self).wf(),
        ensures
            final(self).wf(),
            snapshot.tick > old(self).newer.tick ==> final(self).older == old(self).newer
                && final(self).newer == snapshot,
            snapshot.tick <= old(self).newer.tick ==> *final(self) == *old(self),
    {
        if snapshot.tick > self.newer.tick {
            self.older = self.newer;
            self.newer = snapshot;
        }
    }
}

} // verus!
