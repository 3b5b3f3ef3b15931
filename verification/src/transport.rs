//! The in-process loopback transport and its conditioned wrapper.
//!
//! The loopback pair gives two co-located roles the same fire-and-forget,
//! unordered, possibly-dropping datagram contract a real socket has, so a
//! listen server exercises exactly the code paths a remote peer does.
//! Nothing is assumed about delivery: whatever arrives is handed to the
//! verified layers, which state what holds of every outcome. The
//! conditioned wrapper pulls arrived packets through the link conditioner
//! and releases them only at their scheduled tick.

use vstd::prelude::*;

use crate::conditioner::condition_packet;
use crate::conditioner::Conditioned;
use crate::conditioner::DelayQueue;
use crate::conditioner::SeededRng;

verus! {

#[verifier::external_type_specification]
#[verifier::external_body]
#[verifier::reject_recursive_types(T)]
pub struct ExSender<T>(crossbeam_channel::Sender<T>);

#[verifier::external_type_specification]
#[verifier::external_body]
#[verifier::reject_recursive_types(T)]
pub struct ExReceiver<T>(crossbeam_channel::Receiver<T>);

/// One end of an in-process loopback link: packets pushed into `tx` come
/// out of the peer endpoint's `rx` and the other way round.
pub struct LoopbackEndpoint {
    tx: crossbeam_channel::Sender<Vec<u8>>,
    rx: crossbeam_channel::Receiver<Vec<u8>>,
}

/// Relies on crossbeam_channel::unbounded to build two queues and cross
/// them into a pair of endpoints; nothing is assumed of delivery beyond
/// the datagram contract the verified layers already tolerate.
#[verifier::external_body]
pub fn loopback_pair() -> (r: (LoopbackEndpoint, LoopbackEndpoint)) {
    let (left_tx, right_rx) = crossbeam_channel::unbounded();
    let (right_tx, left_rx) = crossbeam_channel::unbounded();
    (LoopbackEndpoint { tx: left_tx, rx: left_rx }, LoopbackEndpoint { tx: right_tx, rx: right_rx })
}

impl LoopbackEndpoint {
    /// Relies on crossbeam_channel::Sender::send: fire-and-forget; when
    /// the peer endpoint is gone the packet is silently dropped, which
    /// the transport contract allows.
    #[verifier::external_body]
    pub fn send_bytes(&self, bytes: Vec<u8>) {
        let _ = self.tx.send(bytes);
    }

    /// Relies on crossbeam_channel::Receiver::try_recv: non-blocking;
    /// yields a packet observed so far or nothing, never an error on
    /// absence of data.
    #[verifier::external_body]
    pub fn try_recv_bytes(&self) -> (r: Option<Vec<u8>>) {
        match self.rx.try_recv() {
            Ok(bytes) => Some(bytes),
            Err(_) => None,
        }
    }
}

/// A loopback endpoint behind the link conditioner: arrived packets are
/// dropped or held back per the configured conditions before the upper
/// layers see them.
pub struct ConditionedLink {
    pub endpoint: LoopbackEndpoint,
    /// Seeded source of the per-packet decisions.
    pub rng: SeededRng,
    /// Packets in flight, waiting for their delivery tick.
    pub queue: DelayQueue,
    /// Base delivery delay in ticks.
    pub latency_ticks: u64,
    /// Upper bound of the per-packet jitter in ticks.
    pub jitter_ticks: u64,
    /// Drop probability in thousandths.
    pub loss_permille: u64,
}

impl ConditionedLink {
    /// The configured conditions stay inside the ranges the per-packet
    /// arithmetic needs.
    pub open spec fn wf(self) -> bool {
        &&& self.loss_permille <= 1000
        &&& self.latency_ticks < 0x1000_0000
        &&& self.jitter_ticks < 0x1000_0000
    }

    /// Wrap one endpoint of a loopback pair.
    pub fn new(
        endpoint: LoopbackEndpoint,
        seed: u64,
        latency_ticks: u64,
        jitter_ticks: u64,
        loss_permille: u64,
    ) -> (r: ConditionedLink)
        requires
            loss_permille <= 1000,
            latency_ticks < 0x1000_0000,
            jitter_ticks < 0x1000_0000,
        ensures
            r.wf(),
            r.rng.state == seed,
            r.queue.packets@.len() == 0,
            r.latency_ticks == latency_ticks,
            r.jitter_ticks == jitter_ticks,
            r.loss_permille == loss_permille,
    {
        ConditionedLink {
            endpoint,
            rng: SeededRng::new(seed),
            queue: DelayQueue::new(),
            latency_ticks,
            jitter_ticks,
            loss_permille,
        }
    }

    /// Send a packet to the peer, fire-and-forget.
    pub fn send(&self, bytes: Vec<u8>) {
        self.endpoint.send_bytes(bytes);
    }

    /// Pull up to `budget` newly arrived packets through the
    /// conditioner: each is dropped or scheduled between `latency` and
    /// `latency + jitter` ticks from now; nothing already queued is
    /// disturbed.
    #[verifier::rlimit(60)]
    pub fn pump(&mut self, now_tick: u64, budget: usize)
        requires
            old(self).wf(),
            now_tick < 0x4000_0000_0000_0000,
        ensures
            final(self).wf(),
            final(self).latency_ticks == old(self).latency_ticks,
            final(self).jitter_ticks == old(self).jitter_ticks,
            final(self).loss_permille == old(self).loss_permille,
            final(self).queue.packets@.len() >= old(self).queue.packets@.len(),
            final(self).queue.packets@.subrange(0, old(self).queue.packets@.len() as int) =~= old(
                self,
            ).queue.packets@,
            forall|i: int|
                old(self).queue.packets@.len() <= i < final(self).queue.packets@.len() ==> {
                    let at = (#[trigger] final(self).queue.packets@[i]).deliver_at;
                    now_tick + old(self).latency_ticks <= at <= now_tick + old(self).latency_ticks
                        + old(self).jitter_ticks
                },
    {
        let ghost base = old(self).queue.packets@;
        let mut step: usize = 0;
        while step < budget
            invariant
                self.wf(),
                now_tick < 0x4000_0000_0000_0000,
                self.latency_ticks == old(self).latency_ticks,
                self.jitter_ticks == old(self).jitter_ticks,
                self.loss_permille == old(self).loss_permille,
                self.queue.packets@.len() >= base.len(),
                self.queue.packets@.subrange(0, base.len() as int) =~= base,
                base == old(self).queue.packets@,
                forall|i: int|
                    base.len() <= i < self.queue.packets@.len() ==> {
                        let at = (#[trigger] self.queue.packets@[i]).deliver_at;
                        now_tick + self.latency_ticks <= at <= now_tick + self.latency_ticks
                            + self.jitter_ticks
                    },
            decreases budget - step,
        {
            let arrived = self.endpoint.try_recv_bytes();
            match arrived {
                Some(bytes) => {
                    let ghost pre_queue = self.queue.packets@;
                    let verdict = condition_packet(
                        self.latency_ticks,
                        self.jitter_ticks,
                        self.loss_permille,
                        &mut self.rng,
                        now_tick,
                    );
                    match verdict {
                        Conditioned::Dropped => {},
                        Conditioned::Deliver { at_tick } => {
                            self.queue.push(at_tick, bytes);
                            proof {
                                assert(self.queue.packets@.subrange(0, base.len() as int)
                                    =~= pre_queue.subrange(0, base.len() as int));
                            }
                        },
                    }
                },
                None => {},
            }
            step = step + 1;
        }
    }

    /// Release the first packet whose delivery tick has been reached:
    /// exactly that packet leaves the queue and nothing else moves.
    pub fn poll(&mut self, now_tick: u64) -> (r: Option<Vec<u8>>)
        ensures
            final(self).wf() == old(self).wf(),
            final(self).endpoint == old(self).endpoint,
            final(self).rng == old(self).rng,
            final(self).latency_ticks == old(self).latency_ticks,
            final(self).jitter_ticks == old(self).jitter_ticks,
            final(self).loss_permille == old(self).loss_permille,
            r is None ==> *final(self) == *old(self) && (forall|i: int|
                0 <= i < old(self).queue.packets@.len() ==> (#[trigger] old(
                    self,
                ).queue.packets@[i]).deliver_at > now_tick),
            r matches Some(payload) ==> exists|i: int|
                {
                    &&& 0 <= i < old(self).queue.packets@.len()
                    &&& (#[trigger] old(self).queue.packets@[i]).deliver_at <= now_tick
                    &&& (forall|j: int|
                        0 <= j < i ==> (#[trigger] old(self).queue.packets@[j]).deliver_at
                            > now_tick)
                    &&& payload == old(self).queue.packets@[i].payload
                    &&& final(self).queue.packets@ =~= old(self).queue.packets@.remove(i)
                },
    {
        self.queue.pop_due(now_tick)
    }
}

} // verus!
