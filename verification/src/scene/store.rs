//! The store of meshes: what exists in the scene, and under which identifier.
//!
//! Identifiers are given out in increasing order and never again, also after the store
//! was cleared, so that an identifier that a client has kept never names another mesh.
use crate::scene::mesh::{MeshCore, VertexCore};
use std::collections::HashMap;
use vstd::prelude::*;
use vstd::std_specs::iter::IteratorSpec;

verus! {

broadcast use vstd::std_specs::hash::group_hash_axioms;

/// The keys of `map`, each once, in the order in which the map hands them out.
pub fn keys_of<T>(map: &HashMap<usize, T>) -> (keys: Vec<usize>)
    ensures
        keys@.no_duplicates(),
        forall|k: usize| keys@.contains(k) <==> map@.contains_key(k),
{
    let mut keys: Vec<usize> = Vec::new();
    let ghost all = map.keys().remaining();
    for k in it: map.keys()
        invariant
            it.seq() == all,
            all == map.keys().remaining(),
            keys@.len() == it.index(),
            forall|j: int| 0 <= j < keys@.len() ==> keys@[j] == *all[j],
    {
        keys.push(*k);
    }
    proof {
        assert(keys@ =~= all.unref());
        assert forall|i: int, j: int|
            0 <= i < keys@.len() && 0 <= j < keys@.len() && i != j implies keys@[i] != keys@[j] by {
            assert(all[i] != all[j]);
        }
        assert forall|k: usize| keys@.contains(k) <==> map@.contains_key(k) by {
            assert(keys@.to_set() == map@.dom());
            assert(keys@.to_set().contains(k) <==> keys@.contains(k));
        }
    }
    keys
}

/// Start of the identifiers that `MeshState` gives out; the ones below are reserved.
pub const START_UID: usize = 5;

/// The store of meshes: every mesh that was added and not cleared, under the identifier
/// it was given, and the identifier that the next mesh will get.
pub struct MeshState<V: VertexCore> {
    pub next_uid: usize,
    pub meshes: HashMap<usize, MeshCore<V>>,
}

impl<V: VertexCore> MeshState<V> {
    /// Every mesh is drawable and stored under the identifier it carries, and every
    /// identifier in use was given out by this store: it is not reserved and lies below the
    /// next one.
    pub open spec fn wf(&self) -> bool {
        &&& START_UID <= self.next_uid
        &&& forall|uid: usize| #[trigger]
            self.meshes@.contains_key(uid) ==> START_UID <= uid < self.next_uid
                && self.meshes@[uid].uid == uid && self.meshes@[uid].valid()
    }

    pub fn new() -> (store: Self)
        ensures
            store.wf(),
            store.next_uid == START_UID,
            store.meshes@ == Map::<usize, MeshCore<V>>::empty(),
    {
        MeshState { next_uid: START_UID, meshes: HashMap::new() }
    }

    /// Stores the drawable `mesh` under the next identifier and returns that identifier.
    pub fn add_mesh(&mut self, mesh: MeshCore<V>) -> (uid: usize)
        requires
            old(self).wf(),
            old(self).next_uid < usize::MAX,
            mesh.valid(),
        ensures
            final(self).wf(),
            uid == old(self).next_uid,
            final(self).next_uid == old(self).next_uid + 1,
            add_step(*old(self), *final(self)),
            !old(self).meshes@.contains_key(uid),
            final(self).meshes@.dom() == old(self).meshes@.dom().insert(uid),
            forall|other: usize|
                old(self).meshes@.contains_key(other) ==> final(self).meshes@[other]
                    == old(self).meshes@[other],
            final(self).meshes@[uid].vertices == mesh.vertices,
            final(self).meshes@[uid].indices == mesh.indices,
            final(self).meshes@[uid].cell_type == mesh.cell_type,
            final(self).meshes@[uid].uid == uid,
    {
        let uid = self.next_uid();
        let mut mesh = mesh;
        mesh.uid = uid;
        self.meshes.insert(uid, mesh);
        assert(final(self).meshes@.dom() =~= old(self).meshes@.dom().insert(uid));
        uid
    }

    fn next_uid(&mut self) -> (out: usize)
        requires
            old(self).next_uid < usize::MAX,
        ensures
            out == old(self).next_uid,
            final(self).next_uid == old(self).next_uid + 1,
            final(self).meshes == old(self).meshes,
    {
        let out = self.next_uid;
        self.next_uid += 1;
        out
    }
}

/// The step from `before` to `after` is one `add_mesh`: the next identifier was given out.
pub open spec fn add_step<V: VertexCore>(before: MeshState<V>, after: MeshState<V>) -> bool {
    after.next_uid == before.next_uid + 1
}

/// The step from `before` to `after` is one clearing of the store: the meshes are gone,
/// and the next identifier is what it was.
pub open spec fn clear_step<V: VertexCore>(before: MeshState<V>, after: MeshState<V>) -> bool {
    after.next_uid == before.next_uid && after.meshes@ == Map::<usize, MeshCore<V>>::empty()
}

/// Through any history of additions and clearings the next identifier never goes down.
pub proof fn lemma_next_uid_never_decreases<V: VertexCore>(
    states: Seq<MeshState<V>>,
    i: int,
    j: int,
)
    requires
        forall|k: int|
            0 <= k < states.len() - 1 ==> add_step(states[k], #[trigger] states[k + 1])
                || clear_step(states[k], states[k + 1]),
        0 <= i <= j < states.len(),
    ensures
        states[i].next_uid <= states[j].next_uid,
    decreases j - i,
{
    if i < j {
        lemma_next_uid_never_decreases(states, i, j - 1);
        assert(add_step(states[j - 1], states[j - 1 + 1]) || clear_step(
            states[j - 1],
            states[j - 1 + 1],
        ));
    }
}

/// Identifiers strictly increase: of two additions in any history of additions and
/// clearings, the later one returns the greater identifier, whatever was cleared in
/// between. The identifier that an addition returns is the next identifier of the state
/// it starts from.
pub proof fn lemma_uids_strictly_increase<V: VertexCore>(
    states: Seq<MeshState<V>>,
    i: int,
    j: int,
)
    requires
        forall|k: int|
            0 <= k < states.len() - 1 ==> add_step(states[k], #[trigger] states[k + 1])
                || clear_step(states[k], states[k + 1]),
        0 <= i < j < states.len() - 1,
        add_step(states[i], states[i + 1]),
        add_step(states[j], states[j + 1]),
    ensures
        states[i].next_uid < states[j].next_uid,
{
    lemma_next_uid_never_decreases(states, i + 1, j);
}

} // verus!
