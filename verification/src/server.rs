//! Server-side replication: deciding, per peer and per send interval,
//! which records to emit for the current world.
//!
//! A newly observed entity that an entity's target includes is announced
//! to that peer with a creation record carrying its once-synced identity,
//! exactly once — it is never re-sent. Every targeted entity's fully-
//! synced position is re-sent each interval. Tearing an entity down emits
//! a despawn record and forgets the announcement, so a later respawn is
//! announced afresh.

use vstd::prelude::*;

use crate::codec::WireMessage;
use crate::replication::contains_id;
use crate::world::PlayerBundle;
use crate::world::ServerWorld;

verus! {

/// The full-sync record an entity contributes each interval.
pub open spec fn snapshot_of(e: PlayerBundle, tick: u64) -> WireMessage {
    WireMessage::SnapshotRecord { tick, owner: e.id.0, position: e.position }
}

/// The one-shot creation record an entity is announced with.
pub open spec fn creation_of(e: PlayerBundle, tick: u64) -> WireMessage {
    WireMessage::CreationRecord { tick, owner: e.id.0, position: e.position }
}

/// What one entity contributes to a peer's outgoing records: nothing if
/// the peer is not targeted, a snapshot if it is, preceded by the
/// creation record when the peer has not been told of the entity yet.
pub open spec fn entity_records(
    e: PlayerBundle,
    announced: Seq<u64>,
    peer: u64,
    tick: u64,
) -> Seq<WireMessage> {
    if e.replicate.replication_target.targets(peer) {
        if announced.contains(e.id.0) {
            seq![snapshot_of(e, tick)]
        } else {
            seq![creation_of(e, tick), snapshot_of(e, tick)]
        }
    } else {
        Seq::<WireMessage>::empty()
    }
}

/// The records one replication pass emits for a world, entity by entity
/// in world order, judged against the announcements made before the
/// pass.
pub open spec fn spec_records(
    entities: Seq<PlayerBundle>,
    announced: Seq<u64>,
    peer: u64,
    tick: u64,
) -> Seq<WireMessage>
    decreases entities.len(),
{
    if entities.len() == 0 {
        Seq::<WireMessage>::empty()
    } else {
        spec_records(entities.drop_last(), announced, peer, tick) + entity_records(
            entities.last(),
            announced,
            peer,
            tick,
        )
    }
}

/// Once every targeted owner has been announced, a pass emits no
/// creation record at all: creation data goes out exactly once.
pub proof fn lemma_no_recreation(
    entities: Seq<PlayerBundle>,
    announced: Seq<u64>,
    peer: u64,
    tick: u64,
)
    requires
        forall|i: int|
            0 <= i < entities.len() && (#[trigger] entities[i]).replicate.replication_target.targets(
                peer,
            ) ==> announced.contains(entities[i].id.0),
    ensures
        forall|j: int|
            0 <= j < spec_records(entities, announced, peer, tick).len() ==> !((
            #[trigger] spec_records(entities, announced, peer, tick)[j]) is CreationRecord),
    decreases entities.len(),
{
    if entities.len() > 0 {
        let prefix = entities.drop_last();
        assert(forall|i: int| 0 <= i < prefix.len() ==> prefix[i] == entities[i]);
        lemma_no_recreation(prefix, announced, peer, tick);
        assert(entities[entities.len() - 1] == entities.last());
    }
}

/// What one peer has been told: which owners' creation records it has
/// received.
pub struct PeerReplication {
    /// The receiving peer.
    pub peer: u64,
    /// Owners already announced to this peer.
    pub announced: Vec<u64>,
}

impl PeerReplication {
    /// No owner is recorded twice.
    pub open spec fn wf(self) -> bool {
        forall|i: int, j: int|
            0 <= i < j < self.announced@.len() ==> (#[trigger] self.announced@[i]) != (
            #[trigger] self.announced@[j])
    }

    pub fn new(peer: u64) -> (r: PeerReplication)
        ensures
            r.wf(),
            r.peer == peer,
            r.announced@.len() == 0,
    {
        PeerReplication { peer, announced: Vec::new() }
    }

    /// One replication pass for this peer: emit, in world order, the
    /// creation record of every targeted entity not yet announced and
    /// the snapshot of every targeted entity, and remember the new
    /// announcements.
    pub fn collect_records(&mut self, world: &ServerWorld) -> (r: Vec<WireMessage>)
        requires
            world.wf(),
            old(self).wf(),
        ensures
            final(self).wf(),
            final(self).peer == old(self).peer,
            r@ =~= spec_records(world.players@, old(self).announced@, old(self).peer, world.tick),
            forall|c: u64|
                #[trigger] final(self).announced@.contains(c) <==> old(self).announced@.contains(c)
                    || exists|i: int|
                    0 <= i < world.players@.len() && (#[trigger] world.players@[i]).id.0 == c
                        && world.players@[i].replicate.replication_target.targets(old(self).peer),
    {
        let ghost announced0 = self.announced@;
        let peer = self.peer;
        let mut r: Vec<WireMessage> = Vec::new();
        let mut i: usize = 0;
        while i < world.players.len()
            invariant
                i <= world.players@.len(),
                world.wf(),
                self.peer == old(self).peer,
                peer == old(self).peer,
                self.wf(),
                announced0 == old(self).announced@,
                r@ =~= spec_records(
                    world.players@.subrange(0, i as int),
                    announced0,
                    peer,
                    world.tick,
                ),
                forall|c: u64|
                    #[trigger] self.announced@.contains(c) <==> announced0.contains(c) || exists|
                        j: int,
                    |
                        0 <= j < i && (#[trigger] world.players@[j]).id.0 == c
                            && world.players@[j].replicate.replication_target.targets(peer),
            decreases world.players@.len() - i,
        {
            let ghost pre_r = r@;
            let ghost pre_announced = self.announced@;
            let e = &world.players[i];
            let targeted = e.replicate.replication_target.covers(peer);
            proof {
                // This entity's owner cannot have been announced during
                // this pass: owners are unique in the world.
                if self.announced@.contains(e.id.0) && !announced0.contains(e.id.0) {
                    let j = choose|j: int|
                        0 <= j < i && (#[trigger] world.players@[j]).id.0 == e.id.0
                            && world.players@[j].replicate.replication_target.targets(peer);
                    assert(world.players@[j].id.0 != world.players@[i as int].id.0);
                }
            }
            if targeted {
                let known = contains_id(&self.announced, e.id.0);
                if !known {
                    r.push(
                        WireMessage::CreationRecord {
                            tick: world.tick,
                            owner: e.id.0,
                            position: e.position,
                        },
                    );
                    self.announced.push(e.id.0);
                    proof {
                        assert forall|a: int, b: int|
                            0 <= a < b < self.announced@.len() implies self.announced@[a]
                            != self.announced@[b] by {
                            if b < pre_announced.len() {
                                assert(pre_announced[a] != pre_announced[b]);
                            } else {
                                assert(self.announced@[a] == pre_announced[a]);
                                assert(pre_announced.contains(pre_announced[a]));
                            }
                        }
                    }
                }
                r.push(
                    WireMessage::SnapshotRecord {
                        tick: world.tick,
                        owner: e.id.0,
                        position: e.position,
                    },
                );
            }
            proof {
                let iv = i as int;
                let cur = world.players@[iv];
                let sub1 = world.players@.subrange(0, iv + 1);
                assert(sub1.drop_last() =~= world.players@.subrange(0, iv));
                assert(sub1.last() == cur);
                assert(spec_records(sub1, announced0, peer, world.tick) == spec_records(
                    world.players@.subrange(0, iv),
                    announced0,
                    peer,
                    world.tick,
                ) + entity_records(cur, announced0, peer, world.tick));
                if targeted {
                    if pre_announced.contains(cur.id.0) {
                        assert(announced0.contains(cur.id.0));
                        assert(r@ =~= pre_r + entity_records(cur, announced0, peer, world.tick));
                    } else {
                        assert(!announced0.contains(cur.id.0));
                        assert(r@ =~= pre_r + entity_records(cur, announced0, peer, world.tick));
                    }
                } else {
                    assert(r@ =~= pre_r + entity_records(cur, announced0, peer, world.tick));
                }
                // Announcement bookkeeping after this entity.
                assert forall|c: u64| #[trigger] self.announced@.contains(c) implies (
                announced0.contains(c) || exists|j: int|
                    0 <= j < iv + 1 && (#[trigger] world.players@[j]).id.0 == c
                        && world.players@[j].replicate.replication_target.targets(peer)) by {
                    if pre_announced.contains(c) {
                    } else {
                        assert(c == cur.id.0 && targeted);
                        assert(world.players@[iv].id.0 == c
                            && world.players@[iv].replicate.replication_target.targets(peer));
                    }
                }
                assert forall|c: u64|
                    (announced0.contains(c) || exists|j: int|
                        0 <= j < iv + 1 && (#[trigger] world.players@[j]).id.0 == c
                            && world.players@[j].replicate.replication_target.targets(
                            peer,
                        )) implies #[trigger] self.announced@.contains(c) by {
                    if announced0.contains(c) {
                        assert(pre_announced.contains(c));
                        if targeted && !pre_announced.contains(cur.id.0) {
                            let j = choose|j: int| 0 <= j < pre_announced.len() && pre_announced[j] == c;
                            assert(self.announced@[j] == c);
                        }
                        assert(self.announced@.contains(c));
                    } else {
                        let j = choose|j: int|
                            0 <= j < iv + 1 && (#[trigger] world.players@[j]).id.0 == c
                                && world.players@[j].replicate.replication_target.targets(peer);
                        if j < iv {
                            assert(pre_announced.contains(c));
                            if targeted && !pre_announced.contains(cur.id.0) {
                                let m = choose|m: int|
                                    0 <= m < pre_announced.len() && pre_announced[m] == c;
                                assert(self.announced@[m] == c);
                            }
                            assert(self.announced@.contains(c));
                        } else {
                            assert(c == cur.id.0 && targeted);
                            if pre_announced.contains(cur.id.0) {
                                assert(self.announced@.contains(c));
                            } else {
                                assert(self.announced@ == pre_announced.push(cur.id.0));
                                assert(self.announced@[self.announced@.len() - 1] == cur.id.0);
                                assert(self.announced@.contains(c));
                            }
                        }
                    }
                }
            }
            i = i + 1;
        }
        proof {
            assert(world.players@.subrange(0, world.players@.len() as int) =~= world.players@);
        }
        r
    }

    /// The entity owned by `owner` went away: emit its despawn record
    /// and forget the announcement, so a respawned entity is announced
    /// anew.
    pub fn on_despawn(&mut self, owner: u64, tick: u64) -> (r: WireMessage)
        requires
            old(self).wf(),
        ensures
            final(self).wf(),
            final(self).peer == old(self).peer,
            r == (WireMessage::DespawnRecord { tick, owner }),
            !final(self).announced@.contains(owner),
            forall|c: u64|
                c != owner ==> (#[trigger] final(self).announced@.contains(c) <==> old(
                    self,
                ).announced@.contains(c)),
    {
        let mut i: usize = 0;
        while i < self.announced.len()
            invariant
                i <= self.announced@.len(),
                *self == *old(self),
                old(self).wf(),
                forall|j: int| 0 <= j < i ==> self.announced@[j] != owner,
            decreases self.announced@.len() - i,
        {
            if self.announced[i] == owner {
                self.announced.remove(i);
                proof {
                    let pre = old(self).announced@;
                    let post = self.announced@;
                    let iv = i as int;
                    assert forall|j: int| 0 <= j < post.len() implies post[j] != owner by {
                        if j < iv {
                            assert(post[j] == pre[j]);
                        } else {
                            assert(post[j] == pre[j + 1]);
                            assert(old(self).announced@[iv] != old(self).announced@[j + 1]);
                        }
                    }
                    assert forall|a: int, b: int| 0 <= a < b < post.len() implies post[a]
                        != post[b] by {
                        let pa = if a < iv {
                            a
                        } else {
                            a + 1
                        };
                        let pb = if b < iv {
                            b
                        } else {
                            b + 1
                        };
                        assert(post[a] == pre[pa]);
                        assert(post[b] == pre[pb]);
                        assert(old(self).announced@[pa] != old(self).announced@[pb]);
                    }
                    assert forall|c: u64| c != owner && pre.contains(c) implies post.contains(
                        c,
                    ) by {
                        let j = choose|j: int| 0 <= j < pre.len() && pre[j] == c;
                        if j < iv {
                            assert(post[j] == c);
                        } else if j > iv {
                            assert(post[j - 1] == c);
                        }
                    }
                    assert forall|c: u64| c != owner && post.contains(c) implies pre.contains(
                        c,
                    ) by {
                        let j = choose|j: int| 0 <= j < post.len() && post[j] == c;
                        if j < iv {
                            assert(pre[j] == c);
                        } else {
                            assert(pre[j + 1] == c);
                        }
                    }
                }
                return WireMessage::DespawnRecord { tick, owner };
            }
            i = i + 1;
        }
        WireMessage::DespawnRecord { tick, owner }
    }
}

} // verus!
