//! Replication targeting and per-component sync policy.
//!
//! Every replicated entity carries a directive saying which peers receive
//! ongoing updates at all, which single peer runs it in prediction mode,
//! and which peers run it in interpolation mode. Components declare whether
//! they are sent once at creation or continuously re-synced.

use vstd::prelude::*;

verus! {

/// A set of peers, described by policy rather than enumerated.
pub enum NetworkTarget {
    /// No peer at all.
    Nobody,
    /// Every connected peer.
    All,
    /// Every connected peer except the listed ones.
    AllExcept(Vec<u64>),
    /// Exactly the listed peers.
    Only(Vec<u64>),
}

impl NetworkTarget {
    /// Whether this target includes the given peer.
    pub open spec fn targets(self, peer: u64) -> bool {
        match self {
            NetworkTarget::Nobody => false,
            NetworkTarget::All => true,
            NetworkTarget::AllExcept(excluded) => !excluded@.contains(peer),
            NetworkTarget::Only(included) => included@.contains(peer),
        }
    }

    /// Decide whether the given peer falls under this target.
    pub fn covers(&self, peer: u64) -> (r: bool)
        ensures
            r == self.targets(peer),
    {
        match self {
            NetworkTarget::Nobody => false,
            NetworkTarget::All => true,
            NetworkTarget::AllExcept(excluded) => !contains_id(excluded, peer),
            NetworkTarget::Only(included) => contains_id(included, peer),
        }
    }
}

/// Whether a list of peer identities holds the given one.
pub fn contains_id(ids: &Vec<u64>, id: u64) -> (r: bool)
    ensures
        r == ids@.contains(id),
{
    let mut i: usize = 0;
    while i < ids.len()
        invariant
            i <= ids@.len(),
            forall|j: int| 0 <= j < i ==> ids@[j] != id,
        decreases ids@.len() - i,
    {
        if ids[i] == id {
            return true;
        }
        i = i + 1;
    }
    false
}

/// Per-entity replication directive, computed at spawn time.
pub struct Replicate {
    /// Which peers receive ongoing updates at all.
    pub replication_target: NetworkTarget,
    /// Which single peer, if any, runs this entity in prediction mode.
    pub prediction_target: NetworkTarget,
    /// Which peers run this entity in interpolation mode.
    pub interpolation_target: NetworkTarget,
}

impl Replicate {
    /// Whether this directive is exactly the one a player entity owned by
    /// `owner` carries: everyone is kept up to date, the owner alone
    /// predicts, everyone else interpolates.
    pub open spec fn is_for_owner(self, owner: u64) -> bool {
        &&& self.replication_target is All
        &&& self.prediction_target matches NetworkTarget::Only(p) && p@ =~= seq![owner]
        &&& self.interpolation_target matches NetworkTarget::AllExcept(e) && e@ =~= seq![owner]
    }

    /// Build the spawn-time directive for a player entity owned by `owner`.
    pub fn for_owner(owner: u64) -> (r: Replicate)
        ensures
            r.is_for_owner(owner),
    {
        let mut predicted: Vec<u64> = Vec::new();
        predicted.push(owner);
        let mut interpolated: Vec<u64> = Vec::new();
        interpolated.push(owner);
        Replicate {
            replication_target: NetworkTarget::All,
            prediction_target: NetworkTarget::Only(predicted),
            interpolation_target: NetworkTarget::AllExcept(interpolated),
        }
    }

    /// Whether the given peer should run the entity in prediction mode.
    pub open spec fn predicts(self, peer: u64) -> bool {
        self.prediction_target.targets(peer)
    }

    /// Whether the given peer should run the entity in interpolation mode.
    pub open spec fn interpolates(self, peer: u64) -> bool {
        self.interpolation_target.targets(peer)
    }
}

/// For a player entity's directive, the prediction and interpolation sets
/// are disjoint from every peer's point of view, the owner always
/// predicts, and every other peer interpolates.
pub proof fn lemma_replication_roles_disjoint(r: Replicate, owner: u64, peer: u64)
    requires
        r.is_for_owner(owner),
    ensures
        !(r.predicts(peer) && r.interpolates(peer)),
        r.predicts(owner),
        peer != owner ==> r.interpolates(peer) && !r.predicts(peer),
{
    let p = r.prediction_target->Only_0;
    let e = r.interpolation_target->AllExcept_0;
    assert(p@[0] == owner);
    assert(p@.contains(owner));
    if r.predicts(peer) {
        let i = choose|i: int| 0 <= i < p@.len() && p@[i] == peer;
        assert(p@[i] == owner);
    }
    if peer != owner && !r.interpolates(peer) {
        let i = choose|i: int| 0 <= i < e@.len() && e@[i] == peer;
        assert(e@[i] == owner);
    }
}

/// When a replicated component's value is (re-)sent.
#[derive(Clone, Copy, Debug, PartialEq, Eq, Structural)]
pub enum SyncMode {
    /// Sent in the creation record only; never re-synced.
    Once,
    /// Continuously re-sent, subject to prediction and interpolation.
    Full,
}

/// The replicated component kinds of the protocol.
#[derive(Clone, Copy, Debug, PartialEq, Eq, Structural)]
pub enum Components {
    PlayerId,
    PlayerPosition,
}

/// Sync policy of each component: identity is immutable and sent once;
/// position is mutable simulation state and continuously synced.
pub fn sync_mode(kind: Components) -> (r: SyncMode)
    ensures
        kind is PlayerId ==> r is Once,
        kind is PlayerPosition ==> r is Full,
{
    match kind {
        Components::PlayerId => SyncMode::Once,
        Components::PlayerPosition => SyncMode::Full,
    }
}

} // verus!
