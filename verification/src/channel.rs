//! Reliable-ordered delivery over the unreliable transport.
//!
//! The sender numbers messages and keeps every unacknowledged one for
//! retransmission; the receiver delivers a message exactly when it is the
//! next in sequence, so duplicates and overtaking redeliveries are
//! discarded and the application sees messages in the order they were
//! sent, each exactly once. The handshake and other discrete events
//! travel on this channel.

use vstd::prelude::*;

verus! {

/// Marker of the protocol's one discrete-event channel.
pub struct Channel1;

/// Delivery modes a channel can declare. Only ordered-reliable delivery
/// is used by this core; the registry leaves room for more.
#[derive(Clone, Copy, Debug, PartialEq, Eq, Structural)]
pub enum ChannelMode {
    OrderedReliable,
    UnorderedUnreliable,
}

/// How one registered channel delivers.
#[derive(Clone, Copy, Debug, PartialEq, Eq, Structural)]
pub struct ChannelSettings {
    pub mode: ChannelMode,
}

/// The protocol's channel registry: the discrete-event channel delivers
/// ordered and reliable.
pub fn protocol() -> (r: ChannelSettings)
    ensures
        r.mode is OrderedReliable,
{
    ChannelSettings { mode: ChannelMode::OrderedReliable }
}

/// A numbered message waiting for its acknowledgement.
pub struct ReliableOutbound {
    pub seq_no: u64,
    pub payload: Vec<u8>,
}

/// Ticks of silence after which the unacknowledged backlog goes out
/// again.
pub const RESEND_INTERVAL_TICKS: u64 = 16;

/// The sending half of the reliable-ordered channel.
pub struct ReliableSender {
    /// Number the next message will carry.
    pub next_seq: u64,
    /// Sent but not yet acknowledged, oldest first; re-sent on detected
    /// loss.
    pub unacked: Vec<ReliableOutbound>,
    /// Tick of the last retransmission burst (zero before any).
    pub last_resend_tick: u64,
}

impl ReliableSender {
    /// Buffered numbers are strictly increasing and below the next one.
    pub open spec fn wf(self) -> bool {
        &&& forall|i: int, j: int|
            0 <= i < j < self.unacked@.len() ==> (#[trigger] self.unacked@[i]).seq_no < (
            #[trigger] self.unacked@[j]).seq_no
        &&& forall|i: int|
            0 <= i < self.unacked@.len() ==> (#[trigger] self.unacked@[i]).seq_no < self.next_seq
    }

    pub fn new() -> (r: ReliableSender)
        ensures
            r.wf(),
            r.next_seq == 0,
            r.unacked@.len() == 0,
            r.last_resend_tick == 0,
    {
        ReliableSender { next_seq: 0, unacked: Vec::new(), last_resend_tick: 0 }
    }

    /// Hand a message to the channel: it takes the next number and stays
    /// buffered until that number is acknowledged.
    pub fn send(&mut self, payload: Vec<u8>) -> (r: u64)
        requires
            old(self).wf(),
            old(self).next_seq < u64::MAX,
        ensures
            final(self).wf(),
            r == old(self).next_seq,
            final(self).next_seq == old(self).next_seq + 1,
            final(self).last_resend_tick == old(self).last_resend_tick,
            final(self).unacked@.len() == old(self).unacked@.len() + 1,
            final(self).unacked@.subrange(0, old(self).unacked@.len() as int) =~= old(
                self,
            ).unacked@,
            final(self).unacked@.last().seq_no == old(self).next_seq,
            final(self).unacked@.last().payload == payload,
    {
        let seq_no = self.next_seq;
        self.unacked.push(ReliableOutbound { seq_no, payload });
        self.next_seq = self.next_seq + 1;
        proof {
            assert forall|i: int, j: int|
                0 <= i < j < self.unacked@.len() implies (#[trigger] self.unacked@[i]).seq_no < (
            #[trigger] self.unacked@[j]).seq_no by {
                if j < old(self).unacked@.len() {
                    assert(old(self).unacked@[i].seq_no < old(self).unacked@[j].seq_no);
                } else {
                    assert(self.unacked@[i] == old(self).unacked@[i]);
                }
            }
        }
        seq_no
    }

    /// Take a cumulative acknowledgement: everything numbered at or
    /// below it is delivered and leaves the buffer; the rest stays, in
    /// order, for retransmission.
    pub fn on_ack(&mut self, acked: u64)
        requires
            old(self).wf(),
        ensures
            final(self).wf(),
            final(self).next_seq == old(self).next_seq,
            final(self).last_resend_tick == old(self).last_resend_tick,
            exists|k: int|
                {
                    &&& 0 <= k <= old(self).unacked@.len()
                    &&& (forall|i: int|
                        0 <= i < k ==> (#[trigger] old(self).unacked@[i]).seq_no <= acked)
                    &&& (forall|i: int|
                        k <= i < old(self).unacked@.len() ==> (#[trigger] old(
                            self,
                        ).unacked@[i]).seq_no > acked)
                    &&& final(self).unacked@ =~= old(self).unacked@.skip(k)
                },
    {
        let ghost pre = old(self).unacked@;
        let initial_len = self.unacked.len();
        let mut dropped: usize = 0;
        while self.unacked.len() > 0 && self.unacked[0].seq_no <= acked
            invariant
                dropped <= initial_len,
                initial_len == pre.len(),
                self.unacked@ =~= pre.skip(dropped as int),
                self.next_seq == old(self).next_seq,
                self.last_resend_tick == old(self).last_resend_tick,
                forall|i: int| 0 <= i < dropped ==> (#[trigger] pre[i]).seq_no <= acked,
            decreases self.unacked@.len(),
        {
            proof {
                assert(pre.skip(dropped as int)[0] == pre[dropped as int]);
            }
            self.unacked.remove(0);
            proof {
                assert(self.unacked@ =~= pre.skip(dropped as int).skip(1));
                assert(pre.skip(dropped as int).skip(1) =~= pre.skip(dropped as int + 1));
            }
            dropped = dropped + 1;
        }
        proof {
            let k = dropped as int;
            assert forall|i: int| k <= i < pre.len() implies (#[trigger] pre[i]).seq_no > acked by {
                assert(self.unacked@.len() == pre.len() - k);
                assert(pre.skip(k)[0] == pre[k]);
                assert(pre[k].seq_no > acked);
                if i > k {
                    assert(old(self).unacked@[k].seq_no < old(self).unacked@[i].seq_no);
                }
            }
            assert forall|i: int, j: int|
                0 <= i < j < self.unacked@.len() implies (#[trigger] self.unacked@[i]).seq_no < (
            #[trigger] self.unacked@[j]).seq_no by {
                assert(self.unacked@[i] == pre[k + i]);
                assert(self.unacked@[j] == pre[k + j]);
            }
            assert forall|i: int|
                0 <= i < self.unacked@.len() implies (#[trigger] self.unacked@[i]).seq_no < old(
                self,
            ).next_seq by {
                assert(self.unacked@[i] == pre[k + i]);
            }
        }
    }
}

/// An owned copy of a payload's bytes.
fn copy_bytes(bytes: &Vec<u8>) -> (r: Vec<u8>)
    ensures
        r@ =~= bytes@,
{
    let mut r: Vec<u8> = Vec::new();
    let mut i: usize = 0;
    while i < bytes.len()
        invariant
            i <= bytes@.len(),
            r@ =~= bytes@.subrange(0, i as int),
        decreases bytes@.len() - i,
    {
        r.push(bytes[i]);
        i = i + 1;
    }
    proof {
        assert(bytes@.subrange(0, bytes@.len() as int) =~= bytes@);
    }
    r
}

impl ReliableSender {
    /// Retransmission on detected loss: when something is still
    /// unacknowledged and the resend interval has passed in silence,
    /// hand back every pending payload, oldest first, and restart the
    /// timer; otherwise nothing goes out and nothing changes.
    pub fn frames_to_resend(&mut self, now_tick: u64, interval: u64) -> (r: Vec<Vec<u8>>)
        requires
            old(self).wf(),
            old(self).last_resend_tick <= now_tick,
        ensures
            final(self).wf(),
            final(self).next_seq == old(self).next_seq,
            final(self).unacked == old(self).unacked,
            (old(self).unacked@.len() > 0 && now_tick - old(self).last_resend_tick >= interval)
                ==> {
                &&& final(self).last_resend_tick == now_tick
                &&& r@.len() == old(self).unacked@.len()
                &&& forall|i: int|
                    0 <= i < r@.len() ==> (#[trigger] r@[i])@ =~= old(self).unacked@[i].payload@
            },
            !(old(self).unacked@.len() > 0 && now_tick - old(self).last_resend_tick >= interval)
                ==> *final(self) == *old(self) && r@.len() == 0,
    {
        if self.unacked.len() > 0 && now_tick - self.last_resend_tick >= interval {
            let mut r: Vec<Vec<u8>> = Vec::new();
            let mut i: usize = 0;
            while i < self.unacked.len()
                invariant
                    i <= self.unacked@.len(),
                    *self == *old(self),
                    r@.len() == i,
                    forall|j: int|
                        0 <= j < i ==> (#[trigger] r@[j])@ =~= self.unacked@[j].payload@,
                decreases self.unacked@.len() - i,
            {
                r.push(copy_bytes(&self.unacked[i].payload));
                i = i + 1;
            }
            self.last_resend_tick = now_tick;
            r
        } else {
            Vec::new()
        }
    }
}

/// The receiving half of the reliable-ordered channel.
pub struct ReliableReceiver {
    /// Number the next delivered message must carry.
    pub next_expected: u64,
}

impl ReliableReceiver {
    pub fn new() -> (r: ReliableReceiver)
        ensures
            r.next_expected == 0,
    {
        ReliableReceiver { next_expected: 0 }
    }

    /// Decide one arriving number: deliver exactly the next in sequence;
    /// a smaller number is a redelivered duplicate and a larger one has
    /// overtaken a gap the sender will still fill — both are discarded,
    /// so the application sees every message once, in sending order.
    pub fn accept(&mut self, seq_no: u64) -> (deliver: bool)
        requires
            old(self).next_expected < u64::MAX,
        ensures
            deliver <==> seq_no == old(self).next_expected,
            deliver ==> final(self).next_expected == old(self).next_expected + 1,
            !deliver ==> final(self).next_expected == old(self).next_expected,
    {
        if seq_no == self.next_expected {
            self.next_expected = self.next_expected + 1;
            true
        } else {
            false
        }
    }
}

} // verus!
