//! Client-side prediction and reconciliation for the locally-owned entity.
//!
//! Each tick the client applies its own input to its predicted position
//! immediately, using the same integration function as the server, and
//! buffers the `(tick, input)` pair so recent inputs can be re-sent over
//! the unreliable transport. When an authoritative position for some tick
//! arrives, every buffered input up to and including that tick is
//! discarded and the remaining inputs are re-applied on top of the
//! server's value: the predicted position is always the authoritative one
//! plus the deterministic replay of what the server has not yet confirmed.

use vstd::prelude::*;

use crate::movement::apply_all;
use crate::movement::shared_movement_behaviour;
use crate::movement::step_pos;
use crate::protocol::Inputs;
use crate::protocol::PlayerPosition;

verus! {

/// One captured input, keyed by the tick it was produced for.
#[derive(Clone, Copy, Debug, PartialEq, Eq, Structural)]
pub struct BufferedInput {
    pub tick: u64,
    pub input: Inputs,
}

/// The inputs of a buffer, in order.
pub open spec fn inputs_of(buf: Seq<BufferedInput>) -> Seq<Inputs> {
    buf.map_values(|b: BufferedInput| b.input)
}

/// Relation between an input buffer before and after a reconciliation
/// against a confirmed tick: everything at or before the confirmed tick
/// is dropped, everything after it is kept, in order.
pub open spec fn confirmed_split(
    pre: Seq<BufferedInput>,
    post: Seq<BufferedInput>,
    confirmed: u64,
) -> bool {
    exists|k: int|
        {
            &&& 0 <= k <= pre.len()
            &&& (forall|i: int| 0 <= i < k ==> (#[trigger] pre[i]).tick <= confirmed)
            &&& (forall|i: int| k <= i < pre.len() ==> (#[trigger] pre[i]).tick > confirmed)
            &&& post =~= pre.skip(k)
        }
}

/// Prediction state of the local player's entity.
pub struct PredictionState {
    /// Identity of the local client; only its own entity ever predicts.
    pub client_id: u64,
    /// The speculatively integrated position shown to the player.
    pub predicted: PlayerPosition,
    /// Inputs not yet confirmed by the server, oldest first.
    pub buffer: Vec<BufferedInput>,
}

impl PredictionState {
    /// Buffered ticks are strictly increasing: one input per tick, in
    /// order.
    pub open spec fn wf(self) -> bool {
        forall|i: int, j: int|
            0 <= i < j < self.buffer@.len() ==> (#[trigger] self.buffer@[i]).tick < (
            #[trigger] self.buffer@[j]).tick
    }

    /// Fresh state for a newly spawned local entity at the origin.
    pub fn new(client_id: u64) -> (r: PredictionState)
        ensures
            r.wf(),
            r.client_id == client_id,
            r.predicted == (PlayerPosition { x: 0, y: 0 }),
            r.buffer@.len() == 0,
    {
        PredictionState { client_id, predicted: PlayerPosition::origin(), buffer: Vec::new() }
    }

    /// Fresh state for a local entity confirmed at a known position.
    pub fn at_position(client_id: u64, position: PlayerPosition) -> (r: PredictionState)
        ensures
            r.wf(),
            r.client_id == client_id,
            r.predicted == position,
            r.buffer@.len() == 0,
    {
        PredictionState { client_id, predicted: position, buffer: Vec::new() }
    }

    /// Capture this tick's input: integrate it into the predicted position
    /// at once and buffer it for re-sending and reconciliation.
    pub fn predict(&mut self, tick: u64, input: Inputs)
        requires
            old(self).wf(),
            old(self).buffer@.len() > 0 ==> old(self).buffer@.last().tick < tick,
        ensures
            final(self).wf(),
            final(self).client_id == old(self).client_id,
            final(self).buffer@ =~= old(self).buffer@.push(BufferedInput { tick, input }),
            final(self).predicted == step_pos(old(self).predicted, input),
    {
        self.buffer.push(BufferedInput { tick, input });
        shared_movement_behaviour(&mut self.predicted, &input);
    }

    /// The most recent buffered inputs, newest last, at most `window` of
    /// them: the redundant payload re-sent each tick so that the server
    /// tolerates loss without blocking.
    pub fn recent_inputs(&self, window: usize) -> (r: Vec<BufferedInput>)
        ensures
            r@.len() == (if self.buffer@.len() <= window {
                self.buffer@.len() as int
            } else {
                window as int
            }),
            r@ =~= self.buffer@.skip(self.buffer@.len() - r@.len()),
    {
        let len = self.buffer.len();
        let start = if len <= window {
            0
        } else {
            len - window
        };
        let mut r: Vec<BufferedInput> = Vec::new();
        let mut i: usize = start;
        while i < len
            invariant
                start <= i <= len,
                len == self.buffer@.len(),
                r@ =~= self.buffer@.subrange(start as int, i as int),
            decreases len - i,
        {
            r.push(self.buffer[i]);
            i = i + 1;
        }
        proof {
            assert(r@ =~= self.buffer@.skip(start as int));
        }
        r
    }

    /// Reconcile against an authoritative position for `server_tick`:
    /// drop every buffered input confirmed by it and set the predicted
    /// position to the authoritative value plus the deterministic replay
    /// of every remaining buffered input.
    pub fn reconcile(&mut self, server_tick: u64, server_pos: PlayerPosition)
        requires
            old(self).wf(),
        ensures
            final(self).wf(),
            final(self).client_id == old(self).client_id,
            confirmed_split(old(self).buffer@, final(self).buffer@, server_tick),
            final(self).predicted == apply_all(server_pos, inputs_of(final(self).buffer@)),
    {
        let ghost pre = old(self).buffer@;
        let initial_len = self.buffer.len();
        let mut dropped: usize = 0;
        while self.buffer.len() > 0 && self.buffer[0].tick <= server_tick
            invariant
                dropped <= initial_len,
                initial_len == pre.len(),
                self.buffer@ =~= pre.skip(dropped as int),
                self.client_id == old(self).client_id,
                forall|i: int| 0 <= i < dropped ==> (#[trigger] pre[i]).tick <= server_tick,
            decreases self.buffer@.len(),
        {
            proof {
                assert(pre.skip(dropped as int)[0] == pre[dropped as int]);
            }
            self.buffer.remove(0);
            proof {
                assert(self.buffer@ =~= pre.skip(dropped as int).skip(1));
                assert(pre.skip(dropped as int).skip(1) =~= pre.skip(dropped as int + 1));
            }
            dropped = dropped + 1;
        }
        proof {
            let k = dropped as int;
            assert forall|i: int| k <= i < pre.len() implies (#[trigger] pre[i]).tick
                > server_tick by {
                assert(self.buffer@.len() == pre.len() - k);
                assert(pre.skip(k)[0] == pre[k]);
                assert(pre[k].tick > server_tick);
                if i > k {
                    assert(old(self).buffer@[k].tick < old(self).buffer@[i].tick);
                }
            }
        }
        // Replay what the server has not confirmed on top of its value.
        let mut pos = server_pos;
        let ghost remaining = inputs_of(self.buffer@);
        proof {
            assert(remaining.skip(0) =~= remaining);
        }
        let mut i: usize = 0;
        while i < self.buffer.len()
            invariant
                i <= self.buffer@.len(),
                remaining == inputs_of(self.buffer@),
                apply_all(server_pos, remaining) == apply_all(pos, remaining.skip(i as int)),
                self.client_id == old(self).client_id,
                self.buffer@ =~= pre.skip(dropped as int),
                forall|j: int| 0 <= j < dropped ==> (#[trigger] pre[j]).tick <= server_tick,
                forall|j: int|
                    dropped <= j < pre.len() ==> (#[trigger] pre[j]).tick > server_tick,
                dropped <= pre.len(),
            decreases self.buffer@.len() - i,
        {
            let input = self.buffer[i].input;
            proof {
                assert(remaining.skip(i as int)[0] == remaining[i as int]);
                assert(remaining[i as int] == input);
                assert(remaining.skip(i as int).skip(1) =~= remaining.skip(i as int + 1));
            }
            shared_movement_behaviour(&mut pos, &input);
            i = i + 1;
        }
        proof {
            assert(remaining.skip(self.buffer@.len() as int) =~= Seq::<Inputs>::empty());
        }
        self.predicted = pos;
        proof {
            let k = dropped as int;
            assert(self.buffer@ =~= old(self).buffer@.skip(k));
            assert(confirmed_split(old(self).buffer@, self.buffer@, server_tick));
        }
    }
}

/// Zero-loss parity: if the client predicts a run of inputs from the same
/// start the server integrates them from, prediction and authority agree
/// after every input — divergence can only come from loss, never from the
/// integration itself.
pub proof fn lemma_prediction_matches_authority(start: PlayerPosition, inputs: Seq<Inputs>)
    ensures
        apply_all(start, inputs) == (if inputs.len() == 0 {
            start
        } else {
            step_pos(apply_all(start, inputs.drop_last()), inputs.last())
        }),
    decreases inputs.len(),
{
    if inputs.len() > 0 {
        let head = inputs[0];
        let tail = inputs.skip(1);
        assert(apply_all(start, inputs) == apply_all(step_pos(start, head), tail));
        if inputs.len() == 1 {
            assert(tail =~= Seq::<Inputs>::empty());
            assert(inputs.drop_last() =~= Seq::<Inputs>::empty());
            assert(inputs.last() == head);
        } else {
            lemma_prediction_matches_authority(step_pos(start, head), tail);
            assert(tail.drop_last() =~= inputs.drop_last().skip(1));
            assert(tail.last() == inputs.last());
            assert(inputs.drop_last()[0] == head);
            assert(inputs.drop_last().len() > 0);
            assert(apply_all(start, inputs.drop_last()) == apply_all(
                step_pos(start, head),
                inputs.drop_last().skip(1),
            ));
        }
    }
}

} // verus!
