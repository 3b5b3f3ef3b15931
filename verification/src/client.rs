//! The client's view of the world: its own predicted entity and the
//! interpolated entities of every other peer.
//!
//! The client may create a local placeholder for its own player before
//! the server confirms the spawn, to avoid input lag. An incoming
//! creation record for the local identity is recognized and merged into
//! that placeholder — never duplicated — and the placeholder keeps its
//! prediction role. Records about identities the client does not know
//! are dropped; that is never fatal to the session.

use vstd::prelude::*;

use crate::interpolation::InterpolationState;
use crate::interpolation::Snapshot;
use crate::movement::apply_all;
use crate::movement::step_pos;
use crate::prediction::confirmed_split;
use crate::prediction::inputs_of;
use crate::prediction::BufferedInput;
use crate::prediction::PredictionState;
use crate::protocol::Direction;
use crate::protocol::Inputs;
use crate::protocol::PlayerId;
use crate::protocol::PlayerPosition;

verus! {

/// Map one tick's raw key state to the input sent for that tick:
/// direction flags win if any is set, then a spawn request, and
/// otherwise the explicit no-input marker that tells the server this
/// tick's silence is real.
pub fn input_from_keys(up: bool, down: bool, left: bool, right: bool, spawn_pressed: bool) -> (r:
    Inputs)
    ensures
        (up || down || left || right) ==> r == Inputs::Direction(
            Direction { up, down, left, right },
        ),
        (!(up || down || left || right) && spawn_pressed) ==> r is Spawn,
        (!(up || down || left || right) && !spawn_pressed) ==> r is NoInput,
{
    let direction = Direction { up, down, left, right };
    if !direction.is_none() {
        Inputs::Direction(direction)
    } else if spawn_pressed {
        Inputs::Spawn
    } else {
        Inputs::NoInput
    }
}

/// A peer's entity as the client sees it: identity plus the snapshot
/// window it is interpolated from.
pub struct RemoteEntity {
    pub id: PlayerId,
    pub interp: InterpolationState,
}

/// Everything the client holds about the shared world.
pub struct ClientWorld {
    /// The local identity, once known.
    pub client_id: u64,
    /// The locally-owned entity, predicted ahead of the server; present
    /// from the pre-spawn placeholder on.
    pub local: Option<PredictionState>,
    /// Whether the server has confirmed the local entity's creation.
    pub local_confirmed: bool,
    /// Entities owned by other peers, interpolated, never predicted.
    pub remotes: Vec<RemoteEntity>,
}

impl ClientWorld {
    /// The local state tracks the local identity, remote entities are
    /// one per foreign identity, and no remote carries the local one.
    pub open spec fn wf(self) -> bool {
        &&& self.local matches Some(p) ==> p.client_id == self.client_id && p.wf()
        &&& forall|i: int|
            0 <= i < self.remotes@.len() ==> (#[trigger] self.remotes@[i]).id.0 != self.client_id
                && self.remotes@[i].interp.wf()
        &&& forall|i: int, j: int|
            0 <= i < j < self.remotes@.len() ==> (#[trigger] self.remotes@[i]).id.0 != (
            #[trigger] self.remotes@[j]).id.0
    }

    /// Whether a remote entity for `owner` is known.
    pub open spec fn has_remote(self, owner: u64) -> bool {
        exists|i: int| 0 <= i < self.remotes@.len() && (#[trigger] self.remotes@[i]).id.0 == owner
    }

    /// A client that knows its identity but no entities yet.
    pub fn new(client_id: u64) -> (r: ClientWorld)
        ensures
            r.wf(),
            r.client_id == client_id,
            r.local is None,
            !r.local_confirmed,
            r.remotes@.len() == 0,
    {
        ClientWorld { client_id, local: None, local_confirmed: false, remotes: Vec::new() }
    }

    /// Index of the remote entity owned by `owner`, if any.
    fn find_remote(&self, owner: u64) -> (r: Option<usize>)
        ensures
            match r {
                Some(i) => i < self.remotes@.len() && self.remotes@[i as int].id.0 == owner,
                None => !self.has_remote(owner),
            },
    {
        let mut i: usize = 0;
        while i < self.remotes.len()
            invariant
                i <= self.remotes@.len(),
                forall|j: int| 0 <= j < i ==> (#[trigger] self.remotes@[j]).id.0 != owner,
            decreases self.remotes@.len() - i,
        {
            if self.remotes[i].id.0 == owner {
                return Some(i);
            }
            i = i + 1;
        }
        None
    }

    /// Ask to spawn the local player: create the pre-spawn placeholder at
    /// the origin if none exists; while one does, the request is a no-op.
    pub fn request_spawn(&mut self)
        requires
            old(self).wf(),
        ensures
            final(self).wf(),
            final(self).client_id == old(self).client_id,
            final(self).remotes == old(self).remotes,
            final(self).local_confirmed == old(self).local_confirmed,
            old(self).local is Some ==> *final(self) == *old(self),
            old(self).local is None ==> (final(self).local matches Some(p) && p.client_id == old(
                self,
            ).client_id && p.predicted == (PlayerPosition { x: 0, y: 0 }) && p.buffer@.len() == 0),
    {
        if self.local.is_none() {
            self.local = Some(PredictionState::new(self.client_id));
        }
    }

    /// Capture this tick's input for the local entity: predict at once
    /// and buffer for re-sending; without a local entity there is nothing
    /// to move.
    pub fn capture_input(&mut self, tick: u64, input: Inputs)
        requires
            old(self).wf(),
            old(self).local matches Some(p) ==> (p.buffer@.len() > 0 ==> p.buffer@.last().tick
                < tick),
        ensures
            final(self).wf(),
            final(self).client_id == old(self).client_id,
            final(self).remotes == old(self).remotes,
            final(self).local_confirmed == old(self).local_confirmed,
            old(self).local is None ==> *final(self) == *old(self),
            old(self).local matches Some(p) ==> final(self).local matches Some(q) && q.client_id
                == p.client_id && q.buffer@ =~= p.buffer@.push(BufferedInput { tick, input })
                && q.predicted == step_pos(p.predicted, input),
    {
        match &mut self.local {
            Some(p) => p.predict(tick, input),
            None => {},
        }
    }

    /// Take a creation record: for the local identity it merges into the
    /// placeholder, preserving its prediction role, instead of creating a
    /// duplicate; for a new foreign identity it creates the interpolated
    /// entity; for a known one it is a duplicate and is dropped.
    pub fn on_creation_record(&mut self, owner: u64, tick: u64, position: PlayerPosition)
        requires
            old(self).wf(),
        ensures
            final(self).wf(),
            final(self).client_id == old(self).client_id,
            owner == old(self).client_id ==> {
                &&& final(self).remotes == old(self).remotes
                &&& final(self).local_confirmed
                &&& (old(self).local matches Some(p) ==> final(self).local == Some(p))
                &&& (old(self).local is None ==> (final(self).local matches Some(q) && q.client_id
                    == owner && q.predicted == position && q.buffer@.len() == 0))
            },
            owner != old(self).client_id ==> {
                &&& final(self).local == old(self).local
                &&& final(self).local_confirmed == old(self).local_confirmed
                &&& (old(self).has_remote(owner) ==> *final(self) == *old(self))
                &&& (!old(self).has_remote(owner) ==> {
                    &&& final(self).remotes@.len() == old(self).remotes@.len() + 1
                    &&& final(self).remotes@.subrange(0, old(self).remotes@.len() as int) =~= old(
                        self,
                    ).remotes@
                    &&& final(self).remotes@.last().id.0 == owner
                    &&& final(self).remotes@.last().interp.older == (Snapshot { tick, position })
                    &&& final(self).remotes@.last().interp.newer == (Snapshot { tick, position })
                })
            },
    {
        if owner == self.client_id {
            if self.local.is_none() {
                self.local = Some(PredictionState::at_position(owner, position));
            }
            self.local_confirmed = true;
        } else {
            let found = self.find_remote(owner);
            if found.is_none() {
                let entity = RemoteEntity {
                    id: PlayerId(owner),
                    interp: InterpolationState::new(Snapshot { tick, position }),
                };
                self.remotes.push(entity);
                proof {
                    let n = old(self).remotes@.len() as int;
                    assert forall|i: int, j: int|
                        0 <= i < j < self.remotes@.len() implies (#[trigger] self.remotes@[i]).id.0
                        != (#[trigger] self.remotes@[j]).id.0 by {
                        if j < n {
                            assert(old(self).remotes@[i].id.0 != old(self).remotes@[j].id.0);
                        } else {
                            assert(self.remotes@[i] == old(self).remotes@[i]);
                        }
                    }
                }
            }
        }
    }

    /// Take an authoritative position for `owner` at `tick`: the local
    /// entity reconciles — drops confirmed inputs and replays the rest on
    /// top of the server value — while a remote entity shifts its
    /// interpolation window; an unknown identity's record is dropped.
    pub fn on_snapshot(&mut self, owner: u64, tick: u64, position: PlayerPosition)
        requires
            old(self).wf(),
        ensures
            final(self).wf(),
            final(self).client_id == old(self).client_id,
            final(self).local_confirmed == old(self).local_confirmed,
            owner == old(self).client_id ==> {
                &&& final(self).remotes == old(self).remotes
                &&& (old(self).local is None ==> *final(self) == *old(self))
                &&& (old(self).local matches Some(p) ==> final(self).local matches Some(q)
                    && q.client_id == p.client_id && confirmed_split(p.buffer@, q.buffer@, tick)
                    && q.predicted == apply_all(position, inputs_of(q.buffer@)))
            },
            owner != old(self).client_id ==> {
                &&& final(self).local == old(self).local
                &&& final(self).remotes@.len() == old(self).remotes@.len()
                &&& (!old(self).has_remote(owner) ==> *final(self) == *old(self))
                &&& forall|i: int|
                    0 <= i < old(self).remotes@.len() ==> {
                        let e = #[trigger] old(self).remotes@[i];
                        &&& final(self).remotes@[i].id == e.id
                        &&& (e.id.0 != owner ==> final(self).remotes@[i] == e)
                        &&& (e.id.0 == owner ==> {
                            let w = final(self).remotes@[i].interp;
                            &&& (tick > e.interp.newer.tick ==> w.older == e.interp.newer
                                && w.newer == (Snapshot { tick, position }))
                            &&& (tick <= e.interp.newer.tick ==> w == e.interp)
                        })
                    }
            },
    {
        if owner == self.client_id {
            match &mut self.local {
                Some(p) => p.reconcile(tick, position),
                None => {},
            }
        } else {
            let found = self.find_remote(owner);
            match found {
                Some(i) => {
                    let mut entity = self.remotes.remove(i);
                    entity.interp.push(Snapshot { tick, position });
                    self.remotes.insert(i, entity);
                    proof {
                        assert forall|a: int, b: int|
                            0 <= a < b < self.remotes@.len() implies (
                        #[trigger] self.remotes@[a]).id.0 != (#[trigger] self.remotes@[b]).id.0 by {
                            assert(old(self).remotes@[a].id.0 != old(self).remotes@[b].id.0);
                        }
                    }
                },
                None => {},
            }
        }
    }

    /// A peer's entity was torn down: forget the remote entity; for the
    /// local identity, the local entity and its prediction state go away.
    pub fn on_despawn(&mut self, owner: u64)
        requires
            old(self).wf(),
        ensures
            final(self).wf(),
            final(self).client_id == old(self).client_id,
            owner == old(self).client_id ==> final(self).local is None
                && !final(self).local_confirmed && final(self).remotes == old(self).remotes,
            owner != old(self).client_id ==> {
                &&& final(self).local == old(self).local
                &&& final(self).local_confirmed == old(self).local_confirmed
                &&& !final(self).has_remote(owner)
                &&& (!old(self).has_remote(owner) ==> *final(self) == *old(self))
            },
    {
        if owner == self.client_id {
            self.local = None;
            self.local_confirmed = false;
        } else {
            let found = self.find_remote(owner);
            match found {
                Some(i) => {
                    self.remotes.remove(i);
                    proof {
                        let pre = old(self).remotes@;
                        let post = self.remotes@;
                        let iv = i as int;
                        assert forall|j: int| 0 <= j < post.len() implies (#[trigger] post[j]).id.0
                            != owner by {
                            if j < iv {
                                assert(post[j] == pre[j]);
                                if pre[j].id.0 == owner {
                                    assert(pre[j].id.0 != pre[iv].id.0);
                                }
                            } else {
                                assert(post[j] == pre[j + 1]);
                                if pre[j + 1].id.0 == owner {
                                    assert(pre[iv].id.0 != pre[j + 1].id.0);
                                }
                            }
                        }
                        assert forall|a: int, b: int|
                            0 <= a < b < post.len() implies (#[trigger] post[a]).id.0 != (
                        #[trigger] post[b]).id.0 by {
                            let pa = if a < iv {
                                a
                            } else {
                                a + 1
                            };
                            let pb = if b < iv {
                                b
                            } else {
                                b + 1
                            };
                            assert(post[a] == pre[pa]);
                            assert(post[b] == pre[pb]);
                        }
                        assert forall|j: int| 0 <= j < post.len() implies (#[trigger] post[j]).id.0
                            != old(self).client_id && post[j].interp.wf() by {
                            if j < iv {
                                assert(post[j] == pre[j]);
                            } else {
                                assert(post[j] == pre[j + 1]);
                            }
                        }
                    }
                },
                None => {},
            }
        }
    }

    /// The client's own connection went down: all local prediction state
    /// and every known entity are reset.
    pub fn on_disconnected(&mut self)
        ensures
            final(self).wf(),
            final(self).client_id == old(self).client_id,
            final(self).local is None,
            !final(self).local_confirmed,
            final(self).remotes@.len() == 0,
    {
        self.local = None;
        self.local_confirmed = false;
        self.remotes.clear();
    }
}

} // verus!
