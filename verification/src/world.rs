//! The server's authoritative world: one entity per connected player.
//!
//! The server is the sole writer of authoritative state. Per tick it
//! consumes the inputs received for that tick: direction inputs integrate
//! movement, a spawn input creates the sender's entity if and only if none
//! exists yet (a second spawn is a no-op), a delete input or a disconnect
//! tears the sender's entity down, and an explicit no-input changes
//! nothing. A tick with no received input applies nothing: loss is
//! tolerated, not corrected retroactively.

use vstd::prelude::*;

use crate::movement::shared_movement_behaviour;
use crate::movement::step_pos;
use crate::protocol::Inputs;
use crate::protocol::PlayerId;
use crate::protocol::PlayerPosition;
use crate::replication::Replicate;

verus! {

/// A player entity: identity (synced once), position (fully synced), and
/// the replication directive attached at spawn time.
pub struct PlayerBundle {
    pub id: PlayerId,
    pub position: PlayerPosition,
    pub replicate: Replicate,
}

impl PlayerBundle {
    /// The directive matches the owner written in the identity component.
    pub open spec fn wf(self) -> bool {
        self.replicate.is_for_owner(self.id.0)
    }

    /// Bundle a new player entity with the spawn-time directive for its
    /// owner.
    pub fn new(id: u64, position: PlayerPosition) -> (r: PlayerBundle)
        ensures
            r.wf(),
            r.id.0 == id,
            r.position == position,
            r.replicate.is_for_owner(id),
    {
        PlayerBundle { id: PlayerId(id), position, replicate: Replicate::for_owner(id) }
    }
}

/// Relation: `post` is `pre` with one integration step applied to every
/// entity owned by `sender` and nothing else changed.
pub open spec fn movement_applied(
    pre: Seq<PlayerBundle>,
    post: Seq<PlayerBundle>,
    sender: u64,
    input: Inputs,
) -> bool {
    &&& post.len() == pre.len()
    &&& forall|i: int|
        0 <= i < pre.len() ==> {
            let e = #[trigger] pre[i];
            &&& post[i].id == e.id
            &&& post[i].replicate == e.replicate
            &&& post[i].position == (if e.id.0 == sender {
                step_pos(e.position, input)
            } else {
                e.position
            })
        }
}

/// Relation: `post` is `pre` after a spawn request from `c`: unchanged
/// when `c` already owned a live entity, else extended by exactly one
/// entity for `c` at the origin with its spawn-time directive.
pub open spec fn spawn_applied(pre: ServerWorld, post: ServerWorld, c: u64) -> bool {
    &&& post.has_player(c)
    &&& pre.has_player(c) ==> post == pre
    &&& !pre.has_player(c) ==> {
        &&& post.players@.len() == pre.players@.len() + 1
        &&& post.players@.subrange(0, pre.players@.len() as int) =~= pre.players@
        &&& post.players@.last().id.0 == c
        &&& post.players@.last().position == (PlayerPosition { x: 0, y: 0 })
        &&& post.players@.last().replicate.is_for_owner(c)
    }
}

/// Relation: `post` is `pre` with every entity owned by `c` gone and every
/// other entity kept, in order.
pub open spec fn owner_removed(pre: Seq<PlayerBundle>, post: Seq<PlayerBundle>, c: u64) -> bool {
    &&& forall|j: int| 0 <= j < post.len() ==> (#[trigger] post[j]).id.0 != c
    &&& forall|i: int|
        0 <= i < pre.len() && (#[trigger] pre[i]).id.0 != c ==> post.contains(pre[i])
    &&& forall|j: int| 0 <= j < post.len() ==> pre.contains(#[trigger] post[j])
    &&& post.len() <= pre.len()
}

/// Per-client consumption of received inputs, keyed by tick. Clients
/// achieve reliability by re-sending a window of recent inputs, so the
/// same tick's input arrives many times; the server applies each tick's
/// input at most once. A tick the server has already moved past is no
/// longer correctable: loss is tolerated, not corrected retroactively.
/// Input ticks are tagged from one.
pub struct InputConsumption {
    /// Highest input tick already consumed; zero before any.
    pub consumed_through: u64,
}

impl InputConsumption {
    pub fn new() -> (r: InputConsumption)
        ensures
            r.consumed_through == 0,
    {
        InputConsumption { consumed_through: 0 }
    }

    /// Decide one arriving input tick: consumed exactly when newer than
    /// everything consumed so far, and consumption advances the bound —
    /// so no tick's input can ever be applied twice, and a duplicate or
    /// an overtaken straggler is discarded.
    pub fn consume(&mut self, tick: u64) -> (r: bool)
        ensures
            r <==> tick > old(self).consumed_through,
            r ==> final(self).consumed_through == tick,
            !r ==> *final(self) == *old(self),
    {
        if tick > self.consumed_through {
            self.consumed_through = tick;
            true
        } else {
            false
        }
    }
}

/// The authoritative world: the current tick and the live player entities.
pub struct ServerWorld {
    pub players: Vec<PlayerBundle>,
    pub tick: u64,
}

impl ServerWorld {
    /// Every entity is well formed and no two entities share an owner.
    pub open spec fn wf(self) -> bool {
        &&& forall|i: int| 0 <= i < self.players@.len() ==> (#[trigger] self.players@[i]).wf()
        &&& forall|i: int, j: int|
            0 <= i < j < self.players@.len() ==> (#[trigger] self.players@[i]).id.0 != (
            #[trigger] self.players@[j]).id.0
    }

    /// Whether a live entity owned by `c` exists.
    pub open spec fn has_player(self, c: u64) -> bool {
        exists|i: int| 0 <= i < self.players@.len() && (#[trigger] self.players@[i]).id.0 == c
    }

    /// Index of the entity owned by `c`; meaningful only when `has_player`.
    pub open spec fn index_of(self, c: u64) -> int {
        choose|i: int| 0 <= i < self.players@.len() && (#[trigger] self.players@[i]).id.0 == c
    }

    /// Position of the entity owned by `c`; meaningful only when
    /// `has_player`.
    pub open spec fn position_of(self, c: u64) -> PlayerPosition {
        self.players@[self.index_of(c)].position
    }

    /// Under well-formedness the owner determines the index.
    pub proof fn lemma_index_unique(self, c: u64, i: int)
        requires
            self.wf(),
            0 <= i < self.players@.len(),
            self.players@[i].id.0 == c,
        ensures
            self.index_of(c) == i,
            self.has_player(c),
            self.position_of(c) == self.players@[i].position,
    {
        assert(self.has_player(c));
        let j = self.index_of(c);
        if i < j {
            assert(self.players@[i].id.0 != self.players@[j].id.0);
        } else if j < i {
            assert(self.players@[j].id.0 != self.players@[i].id.0);
        }
    }

    /// An empty world at tick zero.
    pub fn new() -> (r: ServerWorld)
        ensures
            r.wf(),
            r.players@.len() == 0,
            r.tick == 0,
    {
        ServerWorld { players: Vec::new(), tick: 0 }
    }

    /// Advance the fixed-rate clock by exactly one tick.
    pub fn advance_tick(&mut self)
        requires
            old(self).tick < u64::MAX,
        ensures
            final(self).tick == old(self).tick + 1,
            final(self).players == old(self).players,
    {
        self.tick = self.tick + 1;
    }

    /// Find the index of the entity owned by `c`.
    pub fn find_player(&self, c: u64) -> (r: Option<usize>)
        ensures
            match r {
                Some(i) => i < self.players@.len() && self.players@[i as int].id.0 == c,
                None => !self.has_player(c),
            },
    {
        let mut i: usize = 0;
        while i < self.players.len()
            invariant
                i <= self.players@.len(),
                forall|j: int| 0 <= j < i ==> (#[trigger] self.players@[j]).id.0 != c,
            decreases self.players@.len() - i,
        {
            if self.players[i].id.0 == c {
                return Some(i);
            }
            i = i + 1;
        }
        None
    }

    /// Handle a spawn request from `c`: create the entity at the origin
    /// with its replication directive if none exists; a request while the
    /// entity is live leaves the world unchanged.
    pub fn apply_spawn(&mut self, c: u64)
        requires
            old(self).wf(),
        ensures
            final(self).wf(),
            final(self).tick == old(self).tick,
            spawn_applied(*old(self), *final(self), c),
    {
        let found = self.find_player(c);
        match found {
            Some(i) => {
                proof {
                    self.lemma_index_unique(c, i as int);
                }
            },
            None => {
                let entity = PlayerBundle::new(c, PlayerPosition::origin());
                self.players.push(entity);
                proof {
                    let n = old(self).players@.len() as int;
                    assert(self.players@[n].id.0 == c);
                    assert forall|i: int, j: int|
                        0 <= i < j < self.players@.len() implies (#[trigger] self.players@[i]).id.0
                        != (#[trigger] self.players@[j]).id.0 by {
                        if j < n {
                            assert(old(self).players@[i].id.0 != old(self).players@[j].id.0);
                        } else {
                            assert(self.players@[i] == old(self).players@[i]);
                        }
                    }
                }
            },
        }
    }

    /// Apply one received input's movement to every entity owned by
    /// `sender`; non-direction inputs move nothing, and no other entity is
    /// touched.
    pub fn apply_movement(&mut self, sender: u64, input: &Inputs)
        requires
            old(self).wf(),
        ensures
            final(self).wf(),
            final(self).tick == old(self).tick,
            movement_applied(old(self).players@, final(self).players@, sender, *input),
    {
        let n = self.players.len();
        let mut i: usize = 0;
        while i < n
            invariant
                i <= n,
                n == self.players@.len(),
                n == old(self).players@.len(),
                self.tick == old(self).tick,
                forall|j: int|
                    0 <= j < n ==> (#[trigger] self.players@[j]).id == old(self).players@[j].id
                        && self.players@[j].replicate == old(self).players@[j].replicate,
                forall|j: int|
                    i <= j < n ==> (#[trigger] self.players@[j]).position == old(
                        self,
                    ).players@[j].position,
                forall|j: int|
                    0 <= j < i ==> (#[trigger] self.players@[j]).position == (if old(
                        self,
                    ).players@[j].id.0 == sender {
                        step_pos(old(self).players@[j].position, *input)
                    } else {
                        old(self).players@[j].position
                    }),
            decreases n - i,
        {
            if self.players[i].id.0 == sender {
                let mut entity = self.players.remove(i);
                shared_movement_behaviour(&mut entity.position, input);
                self.players.insert(i, entity);
            }
            i = i + 1;
        }
        proof {
            assert forall|j: int|
                0 <= j < self.players@.len() implies (#[trigger] self.players@[j]).wf() by {
                assert(old(self).players@[j].wf());
            }
        }
    }

    /// Tear down every entity owned by `c`, as disconnection or an explicit
    /// delete request demands; every other entity is kept, in order.
    pub fn remove_owned(&mut self, c: u64)
        requires
            old(self).wf(),
        ensures
            final(self).wf(),
            final(self).tick == old(self).tick,
            !final(self).has_player(c),
            owner_removed(old(self).players@, final(self).players@, c),
            !old(self).has_player(c) ==> *final(self) == *old(self),
    {
        let found = self.find_player(c);
        match found {
            Some(i) => {
                self.players.remove(i);
                proof {
                    let pre = old(self).players@;
                    let post = self.players@;
                    let iv = i as int;
                    assert forall|j: int| 0 <= j < post.len() implies (#[trigger] post[j]).id.0
                        != c by {
                        if j < iv {
                            assert(post[j] == pre[j]);
                            if pre[j].id.0 == c {
                                old(self).lemma_index_unique(c, j);
                                old(self).lemma_index_unique(c, iv);
                            }
                        } else {
                            assert(post[j] == pre[j + 1]);
                            if pre[j + 1].id.0 == c {
                                old(self).lemma_index_unique(c, j + 1);
                                old(self).lemma_index_unique(c, iv);
                            }
                        }
                    }
                    assert forall|k: int|
                        0 <= k < pre.len() && (#[trigger] pre[k]).id.0 != c implies post.contains(
                        pre[k],
                    ) by {
                        if k < iv {
                            assert(post[k] == pre[k]);
                        } else if k > iv {
                            assert(post[k - 1] == pre[k]);
                        }
                    }
                    assert forall|j: int| 0 <= j < post.len() implies pre.contains(
                        #[trigger] post[j],
                    ) by {
                        if j < iv {
                            assert(post[j] == pre[j]);
                        } else {
                            assert(post[j] == pre[j + 1]);
                        }
                    }
                    assert forall|i2: int, j2: int|
                        0 <= i2 < j2 < post.len() implies (#[trigger] post[i2]).id.0 != (
                        #[trigger] post[j2]).id.0 by {
                        let pi = if i2 < iv {
                            i2
                        } else {
                            i2 + 1
                        };
                        let pj = if j2 < iv {
                            j2
                        } else {
                            j2 + 1
                        };
                        assert(post[i2] == pre[pi]);
                        assert(post[j2] == pre[pj]);
                    }
                    assert forall|j: int|
                        0 <= j < post.len() implies (#[trigger] post[j]).wf() by {
                        if j < iv {
                            assert(post[j] == pre[j]);
                        } else {
                            assert(post[j] == pre[j + 1]);
                        }
                        assert(post[j].wf());
                    }
                }
            },
            None => {
                proof {
                    assert(old(self).players@ =~= self.players@);
                }
            },
        }
    }

    /// Dispatch one input received from `sender` for the current tick.
    pub fn handle_input(&mut self, sender: u64, input: &Inputs)
        requires
            old(self).wf(),
        ensures
            final(self).wf(),
            final(self).tick == old(self).tick,
            input is Direction ==> movement_applied(
                old(self).players@,
                final(self).players@,
                sender,
                *input,
            ),
            input is Spawn ==> spawn_applied(*old(self), *final(self), sender),
            input is Delete ==> !final(self).has_player(sender) && owner_removed(
                old(self).players@,
                final(self).players@,
                sender,
            ),
            input is NoInput ==> *final(self) == *old(self),
    {
        match input {
            Inputs::Direction(_) => self.apply_movement(sender, input),
            Inputs::Spawn => self.apply_spawn(sender),
            Inputs::Delete => self.remove_owned(sender),
            Inputs::NoInput => {},
        }
    }
}

} // verus!
