//! Link conditioner: artificial latency, jitter and loss, applied per
//! packet to emulate a real network.
//!
//! Every decision is drawn from a seeded linear-congruential generator,
//! so a run is deterministic given its seed and can be replayed in tests.
//! Conditioning is applied the same way to inbound and outbound packets:
//! a packet is dropped with the configured probability, or else scheduled
//! `base latency + sampled jitter` ticks into the future.

use vstd::prelude::*;

verus! {

/// Base delivery delay the conditioner adds, in milliseconds.
pub const DEFAULT_LATENCY_MS: u64 = 200;

/// Upper bound of the per-packet jitter, in milliseconds.
pub const DEFAULT_JITTER_MS: u64 = 20;

/// Drop probability in thousandths: 50 is a 5% per-packet loss rate.
pub const DEFAULT_LOSS_PERMILLE: u64 = 50;

/// Simulation ticks per second.
pub const TICKS_PER_SECOND: u64 = 64;

/// Multiplier of the linear-congruential step.
pub const LCG_MUL: u64 = 6364136223846793005;

/// Increment of the linear-congruential step.
pub const LCG_INC: u64 = 1442695040888963407;

/// Artificial network conditions a conditioner applies.
#[derive(Clone, Copy, Debug, PartialEq, Eq, Structural)]
pub struct LinkConditionerConfig {
    /// Base delivery delay in milliseconds.
    pub incoming_latency_ms: u64,
    /// Upper bound of the sampled per-packet jitter in milliseconds.
    pub incoming_jitter_ms: u64,
    /// Drop probability in thousandths.
    pub loss_permille: u64,
}

/// The conditions both roles emulate: 200 ms of latency, up to 20 ms of
/// jitter, 5% loss.
pub fn default_conditioner_config() -> (r: LinkConditionerConfig)
    ensures
        r.incoming_latency_ms == DEFAULT_LATENCY_MS,
        r.incoming_jitter_ms == DEFAULT_JITTER_MS,
        r.loss_permille == DEFAULT_LOSS_PERMILLE,
{
    LinkConditionerConfig {
        incoming_latency_ms: DEFAULT_LATENCY_MS,
        incoming_jitter_ms: DEFAULT_JITTER_MS,
        loss_permille: DEFAULT_LOSS_PERMILLE,
    }
}

/// Milliseconds rounded down to whole simulation ticks.
pub fn ms_to_ticks(ms: u64) -> (r: u64)
    requires
        ms <= 0x0010_0000_0000_0000,
    ensures
        r == ms * TICKS_PER_SECOND / 1000,
{
    ms * TICKS_PER_SECOND / 1000
}

/// One step of the deterministic generator.
pub open spec fn lcg_next(s: u64) -> u64 {
    vstd::wrapping::u64_specs::wrapping_add(
        vstd::wrapping::u64_specs::wrapping_mul(s, LCG_MUL),
        LCG_INC,
    )
}

/// A draw in `0 .. bound` taken from a generator state's upper bits.
pub open spec fn lcg_draw(s: u64, bound: u64) -> u64 {
    (lcg_next(s) >> 33) % bound
}

/// Seeded pseudo-random source: the same seed always yields the same
/// sequence of draws.
pub struct SeededRng {
    pub state: u64,
}

impl SeededRng {
    pub fn new(seed: u64) -> (r: SeededRng)
        ensures
            r.state == seed,
    {
        SeededRng { state: seed }
    }

    /// Draw a value in `0 .. bound`.
    pub fn roll(&mut self, bound: u64) -> (r: u64)
        requires
            bound > 0,
        ensures
            final(self).state == lcg_next(old(self).state),
            r == lcg_draw(old(self).state, bound),
            r < bound,
    {
        self.state = self.state.wrapping_mul(LCG_MUL).wrapping_add(LCG_INC);
        (self.state >> 33) % bound
    }
}

/// What the conditioner decided for one packet.
#[derive(Clone, Copy, Debug, PartialEq, Eq, Structural)]
pub enum Conditioned {
    /// The packet is lost outright.
    Dropped,
    /// The packet is held back until the given tick.
    Deliver { at_tick: u64 },
}

/// Condition one packet observed at `now_tick`: drop it with probability
/// `loss_permille / 1000`, or else schedule it `latency + jitter` ticks
/// out, the jitter drawn fresh per packet.
pub fn condition_packet(
    latency_ticks: u64,
    jitter_ticks: u64,
    loss_permille: u64,
    rng: &mut SeededRng,
    now_tick: u64,
) -> (r: Conditioned)
    requires
        loss_permille <= 1000,
        latency_ticks < 0x1000_0000,
        jitter_ticks < 0x1000_0000,
        now_tick < 0x4000_0000_0000_0000,
    ensures
        lcg_draw(old(rng).state, 1000) < loss_permille ==> r is Dropped && final(rng).state
            == lcg_next(old(rng).state),
        lcg_draw(old(rng).state, 1000) >= loss_permille ==> {
            &&& r == (Conditioned::Deliver {
                at_tick: (now_tick + latency_ticks + lcg_draw(
                    lcg_next(old(rng).state),
                    (jitter_ticks + 1) as u64,
                )) as u64,
            })
            &&& final(rng).state == lcg_next(lcg_next(old(rng).state))
        },
{
    let loss_roll = rng.roll(1000);
    if loss_roll < loss_permille {
        Conditioned::Dropped
    } else {
        let jitter = rng.roll(jitter_ticks + 1);
        Conditioned::Deliver { at_tick: now_tick + latency_ticks + jitter }
    }
}

/// A packet held back by the conditioner until its delivery tick.
pub struct DelayedPacket {
    pub deliver_at: u64,
    pub payload: Vec<u8>,
}

/// Packets in flight, each with the tick it becomes visible at.
pub struct DelayQueue {
    pub packets: Vec<DelayedPacket>,
}

impl DelayQueue {
    pub fn new() -> (r: DelayQueue)
        ensures
            r.packets@.len() == 0,
    {
        DelayQueue { packets: Vec::new() }
    }

    /// Hold a packet back until `deliver_at`.
    pub fn push(&mut self, deliver_at: u64, payload: Vec<u8>)
        ensures
            final(self).packets@.len() == old(self).packets@.len() + 1,
            final(self).packets@.subrange(0, old(self).packets@.len() as int) =~= old(
                self,
            ).packets@,
            final(self).packets@.last().deliver_at == deliver_at,
            final(self).packets@.last().payload == payload,
    {
        self.packets.push(DelayedPacket { deliver_at, payload });
    }

    /// Release the first packet whose delivery tick has been reached, if
    /// any; the rest stay, in order.
    pub fn pop_due(&mut self, now_tick: u64) -> (r: Option<Vec<u8>>)
        ensures
            r is None ==> *final(self) == *old(self) && (forall|i: int|
                0 <= i < old(self).packets@.len() ==> (#[trigger] old(
                    self,
                ).packets@[i]).deliver_at > now_tick),
            r matches Some(payload) ==> exists|i: int|
                {
                    &&& 0 <= i < old(self).packets@.len()
                    &&& (#[trigger] old(self).packets@[i]).deliver_at <= now_tick
                    &&& (forall|j: int|
                        0 <= j < i ==> (#[trigger] old(self).packets@[j]).deliver_at > now_tick)
                    &&& payload == old(self).packets@[i].payload
                    &&& final(self).packets@ =~= old(self).packets@.remove(i)
                },
    {
        let mut i: usize = 0;
        while i < self.packets.len()
            invariant
                i <= self.packets@.len(),
                *self == *old(self),
                forall|j: int|
                    0 <= j < i ==> (#[trigger] self.packets@[j]).deliver_at > now_tick,
            decreases self.packets@.len() - i,
        {
            if self.packets[i].deliver_at <= now_tick {
                let packet = self.packets.remove(i);
                return Some(packet.payload);
            }
            i = i + 1;
        }
        None
    }
}

} // verus!
