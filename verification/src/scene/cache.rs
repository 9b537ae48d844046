//! The record of what is resident on the graphics device.
//!
//! For each mesh of lines or of triangles the device holds a pair of buffers, created
//! once and never written again. Once per frame the record is brought in step with the
//! store of meshes: what takes place on the device is only what has changed since the
//! frame before.
use crate::common::CellType;
use crate::scene::mesh::{MeshCore, VertexCore};
use crate::scene::store::{keys_of, MeshState};
use std::collections::HashMap;
use vstd::prelude::*;

verus! {

broadcast use vstd::std_specs::hash::group_hash_axioms;

/// What is known of the pair of device buffers that holds one mesh: how many indices a
/// draw of it takes, and how many bytes its vertices and its indices occupy.
#[derive(Clone, Copy, Debug, PartialEq, Eq, Structural)]
pub struct CachedBuffer {
    pub index_count: u32,
    pub vertex_bytes: usize,
    pub index_bytes: usize,
}

impl CachedBuffer {
    /// The record of the buffers that hold `mesh`.
    pub open spec fn of<V: VertexCore>(mesh: MeshCore<V>) -> CachedBuffer {
        CachedBuffer {
            index_count: mesh.indices@.len() as u32,
            vertex_bytes: (4 * mesh.vertices@.len()) as usize,
            index_bytes: (4 * mesh.indices@.len()) as usize,
        }
    }
}

/// A pair of buffers to create on the device: the bytes of the vertices and of the indices
/// of the mesh `uid`, to be written once.
#[derive(Debug)]
pub struct BufferUpload {
    pub uid: usize,
    pub cell_type: CellType,
    pub index_count: u32,
    pub vertex_bytes: Vec<u8>,
    pub index_bytes: Vec<u8>,
}

impl BufferUpload {
    /// The upload carries the geometry of `mesh`, a mesh of lines or of triangles.
    pub open spec fn describes<V: VertexCore>(&self, mesh: MeshCore<V>) -> bool {
        &&& self.cell_type == mesh.cell_type
        &&& self.cell_type != CellType::Unset
        &&& self.index_count == mesh.indices@.len() as u32
        &&& in_memory(mesh.vertices@, self.vertex_bytes@)
        &&& in_memory(mesh.indices@, self.index_bytes@)
    }

    /// The record that the cache keeps of the buffers, once they are created.
    pub open spec fn entry(&self) -> CachedBuffer {
        CachedBuffer {
            index_count: self.index_count,
            vertex_bytes: self.vertex_bytes@.len() as usize,
            index_bytes: self.index_bytes@.len() as usize,
        }
    }
}

/// The four bytes that make up `word`, the lowest first.
pub open spec fn word_bytes(word: u32) -> Seq<u8> {
    seq![
        (word % 0x100) as u8,
        (word / 0x100 % 0x100) as u8,
        (word / 0x1_0000 % 0x100) as u8,
        (word / 0x100_0000) as u8,
    ]
}

/// The bytes of `words`, word after word, each word with its lowest byte first.
pub open spec fn bytes_low_first(words: Seq<u32>) -> Seq<u8> {
    Seq::new(4 * words.len(), |k: int| word_bytes(words[k / 4])[k % 4])
}

/// The bytes of `words`, word after word, each word with its highest byte first.
pub open spec fn bytes_high_first(words: Seq<u32>) -> Seq<u8> {
    Seq::new(4 * words.len(), |k: int| word_bytes(words[k / 4])[3 - k % 4])
}

/// `bytes` are the words `words` as they lie in memory: word after word, each in one of
/// the two byte orders that a machine can have.
pub open spec fn in_memory(words: Seq<u32>, bytes: Seq<u8>) -> bool {
    bytes == bytes_low_first(words) || bytes == bytes_high_first(words)
}

/// The bytes of `words`, as the device reads them.
///
/// This calls `bytemuck::cast_slice` from 32-bit words to bytes and is not verified. The
/// call views the memory of the words as bytes; from words to bytes it cannot fail, since
/// bytes need no alignment and every word is four whole bytes. What is claimed of it is
/// that the bytes are those of the words, in their order and four to a word. Which byte
/// of a word comes first is the machine's choice, so the claim allows both orders.
#[verifier::external_body]
fn cast_slice(words: &[u32]) -> (bytes: &[u8])
    ensures
        in_memory(words@, bytes@),
{
    bytemuck::cast_slice::<u32, u8>(words)
}

/// `uid` is among the first `n` of `keys`.
spec fn seen(keys: Seq<usize>, n: int, uid: usize) -> bool {
    exists|j: int| 0 <= j < n && keys[j] == uid
}

/// `deleted` lists, each once, the identifiers of `cache` that `store` no longer holds.
pub open spec fn evicts<V: VertexCore>(
    deleted: Seq<usize>,
    cache: Map<usize, CachedBuffer>,
    store: Map<usize, MeshCore<V>>,
) -> bool {
    &&& deleted.no_duplicates()
    &&& forall|uid: usize|
        deleted.contains(uid) <==> cache.contains_key(uid) && !store.contains_key(uid)
}

/// The cache `cache` with an entry added for every mesh of `store` that has cell type
/// `cell_type` and no entry yet. Entries that are there stay as they are.
pub open spec fn populated<V: VertexCore>(
    cache: Map<usize, CachedBuffer>,
    store: Map<usize, MeshCore<V>>,
    cell_type: CellType,
) -> Map<usize, CachedBuffer> {
    Map::new(
        |uid: usize|
            cache.contains_key(uid) || (store.contains_key(uid) && store[uid].cell_type
                == cell_type),
        |uid: usize|
            if cache.contains_key(uid) {
                cache[uid]
            } else {
                CachedBuffer::of(store[uid])
            },
    )
}

/// The cache `cache` brought in step with `store`: entries of meshes that are gone are
/// dropped, entries of meshes that stayed are kept as they are, and every mesh of cell
/// type `cell_type` without an entry gets one.
pub open spec fn synced<V: VertexCore>(
    cache: Map<usize, CachedBuffer>,
    store: Map<usize, MeshCore<V>>,
    cell_type: CellType,
) -> Map<usize, CachedBuffer> {
    populated(cache.restrict(store.dom()), store, cell_type)
}

/// The cache that serves meshes of cell type `cell_type`.
pub open spec fn cache_for(
    lines: Map<usize, CachedBuffer>,
    triangles: Map<usize, CachedBuffer>,
    cell_type: CellType,
) -> Map<usize, CachedBuffer> {
    if cell_type == CellType::Line {
        lines
    } else {
        triangles
    }
}

/// `created` holds one upload for each mesh of `store` that is drawn and has no entry in
/// the cache of its cell type, and nothing else.
pub open spec fn uploads<V: VertexCore>(
    created: Seq<BufferUpload>,
    lines: Map<usize, CachedBuffer>,
    triangles: Map<usize, CachedBuffer>,
    store: Map<usize, MeshCore<V>>,
) -> bool {
    &&& forall|i: int, j: int|
        0 <= i < j < created.len() ==> created[i].uid != created[j].uid
    &&& forall|i: int|
        0 <= i < created.len() ==> {
            &&& store.contains_key(#[trigger] created[i].uid)
            &&& created[i].describes(store[created[i].uid])
            &&& !cache_for(lines, triangles, created[i].cell_type).contains_key(created[i].uid)
        }
    &&& forall|uid: usize|
        store.contains_key(uid) && store[uid].cell_type != CellType::Unset && !cache_for(
            lines,
            triangles,
            store[uid].cell_type,
        ).contains_key(uid) ==> exists|i: int| 0 <= i < created.len() && created[i].uid == uid
}

/// Among the first `n + 1` keys are the first `n` and the one at `n`; with no key listed
/// twice, the one at `n` is not among the first `n`.
proof fn lemma_seen_next(keys: Seq<usize>, n: int)
    requires
        0 <= n < keys.len(),
    ensures
        forall|uid: usize| #[trigger]
            seen(keys, n + 1, uid) <==> (seen(keys, n, uid) || uid == keys[n]),
        keys.no_duplicates() ==> !seen(keys, n, keys[n]),
{
    assert forall|uid: usize| #[trigger]
        seen(keys, n + 1, uid) <==> (seen(keys, n, uid) || uid == keys[n]) by {
        if seen(keys, n + 1, uid) {
            let j = choose|j: int| 0 <= j < n + 1 && keys[j] == uid;
            if j < n {
                assert(seen(keys, n, uid));
            }
        }
        if seen(keys, n, uid) {
            let j = choose|j: int| 0 <= j < n && keys[j] == uid;
            assert(0 <= j < n + 1 && keys[j] == uid);
        }
        if uid == keys[n] {
            assert(0 <= n < n + 1 && keys[n] == uid);
        }
    }
    if keys.no_duplicates() && seen(keys, n, keys[n]) {
        let j = choose|j: int| 0 <= j < n && keys[j] == keys[n];
        assert(keys[j] == keys[n]);
    }
}

/// Once all keys were looked at, the ones seen are the ones listed.
proof fn lemma_seen_all(keys: Seq<usize>)
    ensures
        forall|uid: usize| #[trigger] seen(keys, keys.len() as int, uid) <==> keys.contains(uid),
{
    assert forall|uid: usize| #[trigger]
        seen(keys, keys.len() as int, uid) <==> keys.contains(uid) by {
        if keys.contains(uid) {
            let j = choose|j: int| 0 <= j < keys.len() && keys[j] == uid;
            assert(0 <= j < keys.len() as int && keys[j] == uid);
        }
    }
}

/// What a sequence contains after a push: what it contained, and the new item.
proof fn lemma_push_contains<T>(s: Seq<T>, x: T, y: T)
    ensures
        s.push(x).contains(y) <==> s.contains(y) || y == x,
{
    let t = s.push(x);
    if t.contains(y) {
        let j = choose|j: int| 0 <= j < t.len() && t[j] == y;
        if j < s.len() {
            assert(s[j] == y);
        }
    }
    if s.contains(y) {
        let j = choose|j: int| 0 <= j < s.len() && s[j] == y;
        assert(t[j] == y);
    }
    if y == x {
        assert(t[s.len() as int] == y);
    }
}

/// Pushing an item that is not there keeps a sequence free of duplicates.
proof fn lemma_push_no_duplicates<T>(s: Seq<T>, x: T)
    requires
        s.no_duplicates(),
        !s.contains(x),
    ensures
        s.push(x).no_duplicates(),
{
    let t = s.push(x);
    assert forall|i: int, j: int| 0 <= i < t.len() && 0 <= j < t.len() && i != j implies t[i]
        != t[j] by {
        if i < s.len() && j < s.len() {
        } else if i < s.len() {
            assert(s.contains(s[i]));
        } else if j < s.len() {
            assert(s.contains(s[j]));
        }
    }
}

/// Drops from `cache` the entries of meshes that `store` no longer holds, and lists them.
fn evict<V: VertexCore>(
    cache: &mut HashMap<usize, CachedBuffer>,
    store: &HashMap<usize, MeshCore<V>>,
) -> (deleted: Vec<usize>)
    ensures
        final(cache)@ == old(cache)@.restrict(store@.dom()),
        evicts(deleted@, old(cache)@, store@),
{
    let keys = keys_of(cache);
    let ghost before = cache@;
    let mut deleted: Vec<usize> = Vec::new();
    let mut i: usize = 0;
    while i < keys.len()
        invariant
            i <= keys@.len(),
            before == old(cache)@,
            keys@.no_duplicates(),
            forall|k: usize| keys@.contains(k) <==> before.contains_key(k),
            forall|uid: usize|
                cache@.contains_key(uid) <==> before.contains_key(uid) && (store@.contains_key(uid)
                    || !seen(keys@, i as int, uid)),
            forall|uid: usize| cache@.contains_key(uid) ==> cache@[uid] == before[uid],
            deleted@.no_duplicates(),
            forall|uid: usize|
                deleted@.contains(uid) <==> seen(keys@, i as int, uid) && !store@.contains_key(uid),
        decreases keys@.len() - i,
    {
        let uid = keys[i];
        let ghost cache_then = cache@;
        let ghost deleted_then = deleted@;
        let ghost n = i as int;
        let gone = !store.contains_key(&uid);
        if gone {
            cache.remove(&uid);
            deleted.push(uid);
            assert(cache@ == cache_then.remove(uid));
            assert(deleted@ == deleted_then.push(uid));
        }
        i += 1;
        proof {
            lemma_seen_next(keys@, n);
            assert forall|other: usize|
                deleted@.contains(other) <==> (deleted_then.contains(other) || (gone && other
                    == uid)) by {
                if gone {
                    lemma_push_contains(deleted_then, uid, other);
                }
            }
            assert forall|other: usize|
                cache@.contains_key(other) <==> before.contains_key(other) && (store@.contains_key(
                    other,
                ) || !seen(keys@, i as int, other)) by {
                assert(cache_then.contains_key(other) <==> before.contains_key(other) && (
                store@.contains_key(other) || !seen(keys@, n, other)));
                assert(seen(keys@, n + 1, other) <==> (seen(keys@, n, other) || other == uid));
            }
            assert forall|other: usize|
                deleted@.contains(other) <==> seen(keys@, i as int, other) && !store@.contains_key(
                    other,
                ) by {
                assert(deleted_then.contains(other) <==> seen(keys@, n, other)
                    && !store@.contains_key(other));
                assert(seen(keys@, n + 1, other) <==> (seen(keys@, n, other) || other == uid));
            }
            if gone {
                assert(!seen(keys@, n, uid));
                assert(!deleted_then.contains(uid));
                lemma_push_no_duplicates(deleted_then, uid);
            }
        }
    }
    proof {
        lemma_seen_all(keys@);
        assert(cache@ =~= before.restrict(store@.dom()));
    }
    deleted
}

/// The cache `cache` with an entry added for every mesh of `store` that is among the first
/// `n` of `keys`, has cell type `cell_type` and had no entry.
spec fn populated_upto<V: VertexCore>(
    cache: Map<usize, CachedBuffer>,
    store: Map<usize, MeshCore<V>>,
    cell_type: CellType,
    keys: Seq<usize>,
    n: int,
) -> Map<usize, CachedBuffer> {
    Map::new(
        |uid: usize|
            cache.contains_key(uid) || (seen(keys, n, uid) && store.contains_key(uid)
                && store[uid].cell_type == cell_type),
        |uid: usize|
            if cache.contains_key(uid) {
                cache[uid]
            } else {
                CachedBuffer::of(store[uid])
            },
    )
}

/// `created` holds one upload for each drawn mesh among the first `n` of `keys` that had
/// no entry in the cache of its cell type, and nothing else.
spec fn uploads_upto<V: VertexCore>(
    created: Seq<BufferUpload>,
    lines: Map<usize, CachedBuffer>,
    triangles: Map<usize, CachedBuffer>,
    store: Map<usize, MeshCore<V>>,
    keys: Seq<usize>,
    n: int,
) -> bool {
    &&& forall|i: int, j: int|
        0 <= i < j < created.len() ==> created[i].uid != created[j].uid
    &&& forall|i: int|
        0 <= i < created.len() ==> {
            &&& store.contains_key(#[trigger] created[i].uid)
            &&& seen(keys, n, created[i].uid)
            &&& created[i].describes(store[created[i].uid])
            &&& !cache_for(lines, triangles, created[i].cell_type).contains_key(created[i].uid)
        }
    &&& forall|uid: usize|
        seen(keys, n, uid) && store.contains_key(uid) && store[uid].cell_type != CellType::Unset
            && !cache_for(lines, triangles, store[uid].cell_type).contains_key(uid)
            ==> exists|i: int| 0 <= i < created.len() && created[i].uid == uid
}

/// The upload that creates the buffers of `mesh`.
fn upload_of<V: VertexCore>(uid: usize, mesh: &MeshCore<V>) -> (up: BufferUpload)
    requires
        mesh.cell_type != CellType::Unset,
    ensures
        up.uid == uid,
        up.describes(*mesh),
        up.entry() == CachedBuffer::of(*mesh),
{
    let vertex_bytes = vstd::slice::slice_to_vec(cast_slice(mesh.vertex_slice()));
    let index_bytes = vstd::slice::slice_to_vec(cast_slice(mesh.index_slice()));
    let index_count = #[verifier::truncate]
    (mesh.num_indices() as u32);
    BufferUpload { uid, cell_type: mesh.cell_type, index_count, vertex_bytes, index_bytes }
}

/// Gives every drawn mesh of `store` that has no entry in the cache of its cell type an
/// entry there, and lists the buffers to create for it.
fn populate<V: VertexCore>(
    lines: &mut HashMap<usize, CachedBuffer>,
    triangles: &mut HashMap<usize, CachedBuffer>,
    store: &HashMap<usize, MeshCore<V>>,
) -> (created: Vec<BufferUpload>)
    ensures
        final(lines)@ == populated(old(lines)@, store@, CellType::Line),
        final(triangles)@ == populated(old(triangles)@, store@, CellType::Triangle),
        uploads(created@, old(lines)@, old(triangles)@, store@),
{
    let keys = keys_of(store);
    let ghost lines_before = lines@;
    let ghost triangles_before = triangles@;
    let mut created: Vec<BufferUpload> = Vec::new();
    let mut i: usize = 0;
    assert(lines@ =~= populated_upto(lines_before, store@, CellType::Line, keys@, 0));
    assert(triangles@ =~= populated_upto(triangles_before, store@, CellType::Triangle, keys@, 0));
    while i < keys.len()
        invariant
            i <= keys@.len(),
            lines_before == old(lines)@,
            triangles_before == old(triangles)@,
            keys@.no_duplicates(),
            forall|k: usize| keys@.contains(k) <==> store@.contains_key(k),
            lines@ == populated_upto(lines_before, store@, CellType::Line, keys@, i as int),
            triangles@ == populated_upto(
                triangles_before,
                store@,
                CellType::Triangle,
                keys@,
                i as int,
            ),
            uploads_upto(created@, lines_before, triangles_before, store@, keys@, i as int),
        decreases keys@.len() - i,
    {
        let uid = keys[i];
        let ghost n = i as int;
        let ghost lines_then = lines@;
        let ghost triangles_then = triangles@;
        let ghost created_then = created@;
        assert(keys@.contains(uid));
        proof {
            lemma_seen_next(keys@, n);
        }
        let mut fresh = false;
        match store.get(&uid) {
            Some(mesh) => {
                if mesh.is_line() && !lines.contains_key(&uid) {
                    let up = upload_of(uid, mesh);
                    lines.insert(
                        uid,
                        CachedBuffer {
                            index_count: up.index_count,
                            vertex_bytes: up.vertex_bytes.len(),
                            index_bytes: up.index_bytes.len(),
                        },
                    );
                    created.push(up);
                    fresh = true;
                }
                if mesh.is_triangle() && !triangles.contains_key(&uid) {
                    let up = upload_of(uid, mesh);
                    triangles.insert(
                        uid,
                        CachedBuffer {
                            index_count: up.index_count,
                            vertex_bytes: up.vertex_bytes.len(),
                            index_bytes: up.index_bytes.len(),
                        },
                    );
                    created.push(up);
                    fresh = true;
                }
            },
            None => {},
        }
        i += 1;
        proof {
            let mesh = store@[uid];
            assert(lines@ =~= populated_upto(lines_before, store@, CellType::Line, keys@, i as int))
                by {
                assert forall|other: usize|
                    seen(keys@, n + 1, other) <==> (seen(keys@, n, other) || other == uid) by {}
            }
            assert(triangles@ =~= populated_upto(
                triangles_before,
                store@,
                CellType::Triangle,
                keys@,
                i as int,
            )) by {
                assert forall|other: usize|
                    seen(keys@, n + 1, other) <==> (seen(keys@, n, other) || other == uid) by {}
            }
            assert(fresh <==> (mesh.cell_type != CellType::Unset && !cache_for(
                lines_before,
                triangles_before,
                mesh.cell_type,
            ).contains_key(uid)));
            if fresh {
                let up = created@[created_then.len() as int];
                assert(created@ == created_then.push(up));
                assert(up.uid == uid);
            } else {
                assert(created@ == created_then);
            }
            assert forall|a: int, b: int| 0 <= a < b < created@.len() implies created@[a].uid
                != created@[b].uid by {
                if b == created_then.len() {
                    assert(seen(keys@, n, created_then[a].uid));
                }
            }
            assert forall|a: int| 0 <= a < created@.len() implies {
                &&& store@.contains_key(#[trigger] created@[a].uid)
                &&& seen(keys@, i as int, created@[a].uid)
                &&& created@[a].describes(store@[created@[a].uid])
                &&& !cache_for(
                    lines_before,
                    triangles_before,
                    created@[a].cell_type,
                ).contains_key(created@[a].uid)
            } by {
                if a < created_then.len() {
                    assert(seen(keys@, n, created_then[a].uid));
                    assert(seen(keys@, n + 1, created_then[a].uid));
                } else {
                    assert(seen(keys@, n + 1, uid));
                }
            }
            assert forall|other: usize|
                seen(keys@, i as int, other) && store@.contains_key(other)
                    && store@[other].cell_type != CellType::Unset && !cache_for(
                    lines_before,
                    triangles_before,
                    store@[other].cell_type,
                ).contains_key(other) implies exists|a: int|
                0 <= a < created@.len() && created@[a].uid == other by {
                assert(seen(keys@, n + 1, other) <==> (seen(keys@, n, other) || other == uid));
                if other == uid {
                    assert(created@[created_then.len() as int].uid == other);
                } else {
                    let a = choose|a: int| 0 <= a < created_then.len() && created_then[a].uid == other;
                    assert(created@[a].uid == other);
                }
            }
        }
    }
    proof {
        lemma_seen_all(keys@);
        assert(lines@ =~= populated(lines_before, store@, CellType::Line));
        assert(triangles@ =~= populated(triangles_before, store@, CellType::Triangle));
        assert forall|uid: usize|
            store@.contains_key(uid) && store@[uid].cell_type != CellType::Unset && !cache_for(
                lines_before,
                triangles_before,
                store@[uid].cell_type,
            ).contains_key(uid) implies exists|a: int|
            0 <= a < created@.len() && created@[a].uid == uid by {
            assert(keys@.contains(uid));
            assert(seen(keys@, keys@.len() as int, uid));
        }
    }
    created
}

/// The entries that a cache for meshes of cell type `cell_type` holds when it is in step
/// with `store`: one for each mesh of that cell type, describing the buffers of that mesh.
pub open spec fn resident<V: VertexCore>(
    store: Map<usize, MeshCore<V>>,
    cell_type: CellType,
) -> Map<usize, CachedBuffer> {
    Map::new(
        |uid: usize| store.contains_key(uid) && store[uid].cell_type == cell_type,
        |uid: usize| CachedBuffer::of(store[uid]),
    )
}

/// The entries of `cache` that belong to meshes still in `store` belong to meshes of cell
/// type `cell_type` and describe them.
pub open spec fn agrees<V: VertexCore>(
    cache: Map<usize, CachedBuffer>,
    store: Map<usize, MeshCore<V>>,
    cell_type: CellType,
) -> bool {
    forall|uid: usize| #[trigger]
        cache.contains_key(uid) && store.contains_key(uid) ==> store[uid].cell_type == cell_type
            && cache[uid] == CachedBuffer::of(store[uid])
}

/// Bringing a cache in step with a store that it agrees with leaves exactly the entries
/// of the meshes in the store: every mesh of the cell type has its entry, with the index
/// count of the mesh, and every entry belongs to a mesh of the cell type.
pub proof fn lemma_synced_is_resident<V: VertexCore>(
    cache: Map<usize, CachedBuffer>,
    store: Map<usize, MeshCore<V>>,
    cell_type: CellType,
)
    requires
        agrees(cache, store, cell_type),
    ensures
        synced(cache, store, cell_type) == resident(store, cell_type),
{
    assert(synced(cache, store, cell_type) =~= resident(store, cell_type));
}

/// A cache that is in step with a store stays as it is when it is brought in step again:
/// nothing is dropped and nothing is created.
proof fn lemma_synced_again<V: VertexCore>(
    store: Map<usize, MeshCore<V>>,
    cell_type: CellType,
    deleted: Seq<usize>,
)
    requires
        evicts(deleted, resident(store, cell_type), store),
    ensures
        synced(resident(store, cell_type), store, cell_type) == resident(store, cell_type),
        deleted.len() == 0,
{
    assert(synced(resident(store, cell_type), store, cell_type) =~= resident(store, cell_type));
    if deleted.len() > 0 {
        assert(deleted.contains(deleted[0]));
    }
}

/// Caches that are in step with a store hold, for every mesh of lines or of triangles, a
/// buffer in the cache of its cell type with the index count of the mesh, and hold
/// nothing but buffers of meshes of the store with the cell type of the cache.
pub proof fn lemma_resident_matches<V: VertexCore>(
    store: Map<usize, MeshCore<V>>,
    cell_type: CellType,
    uid: usize,
)
    ensures
        store.contains_key(uid) && store[uid].cell_type == cell_type ==> resident(
            store,
            cell_type,
        ).contains_key(uid) && resident(store, cell_type)[uid].index_count
            == store[uid].indices@.len() as u32,
        resident(store, cell_type).contains_key(uid) ==> store.contains_key(uid)
            && store[uid].cell_type == cell_type,
{
}

/// Bringing a cache in step twice in a row, with no change of the store in between,
/// does nothing the second time: the cache stays as the first time left it, nothing is
/// released and nothing is created.
pub proof fn lemma_sync_idempotent<V: VertexCore>(
    lines: Map<usize, CachedBuffer>,
    triangles: Map<usize, CachedBuffer>,
    store: Map<usize, MeshCore<V>>,
    deleted_lines: Seq<usize>,
    deleted_triangles: Seq<usize>,
    created: Seq<BufferUpload>,
)
    requires
        evicts(deleted_lines, synced(lines, store, CellType::Line), store),
        evicts(deleted_triangles, synced(triangles, store, CellType::Triangle), store),
        uploads(
            created,
            synced(lines, store, CellType::Line),
            synced(triangles, store, CellType::Triangle),
            store,
        ),
    ensures
        synced(synced(lines, store, CellType::Line), store, CellType::Line) == synced(
            lines,
            store,
            CellType::Line,
        ),
        synced(synced(triangles, store, CellType::Triangle), store, CellType::Triangle) == synced(
            triangles,
            store,
            CellType::Triangle,
        ),
        deleted_lines.len() == 0,
        deleted_triangles.len() == 0,
        created.len() == 0,
{
    let l1 = synced(lines, store, CellType::Line);
    let t1 = synced(triangles, store, CellType::Triangle);
    assert(synced(l1, store, CellType::Line) =~= l1);
    assert(synced(t1, store, CellType::Triangle) =~= t1);
    if deleted_lines.len() > 0 {
        assert(deleted_lines.contains(deleted_lines[0]));
    }
    if deleted_triangles.len() > 0 {
        assert(deleted_triangles.contains(deleted_triangles[0]));
    }
    if created.len() > 0 {
        let up = created[0];
        assert(store.contains_key(up.uid));
        assert(up.describes(store[up.uid]));
    }
}

/// The meshes whose buffers the device holds for cell type `cell_type` after it carried
/// out a plan: those it held, without the released ones, and the created ones.
pub open spec fn after_plan(
    held: Set<usize>,
    deleted: Seq<usize>,
    created: Seq<BufferUpload>,
    cell_type: CellType,
) -> Set<usize> {
    Set::new(
        |uid: usize|
            (held.contains(uid) && !deleted.contains(uid)) || exists|i: int|
                0 <= i < created.len() && created[i].uid == uid && created[i].cell_type
                    == cell_type,
    )
}

/// A device that carries out the plan of every frame stays in step with the caches: if
/// it held the buffers of exactly the meshes in the caches before the frame, it holds the
/// buffers of exactly the meshes in the caches after it.
pub proof fn lemma_plan_keeps_device_in_step<V: VertexCore>(
    lines: Map<usize, CachedBuffer>,
    triangles: Map<usize, CachedBuffer>,
    store: Map<usize, MeshCore<V>>,
    deleted_lines: Seq<usize>,
    deleted_triangles: Seq<usize>,
    created: Seq<BufferUpload>,
)
    requires
        evicts(deleted_lines, lines, store),
        evicts(deleted_triangles, triangles, store),
        uploads(created, lines, triangles, store),
    ensures
        after_plan(lines.dom(), deleted_lines, created, CellType::Line) == synced(
            lines,
            store,
            CellType::Line,
        ).dom(),
        after_plan(triangles.dom(), deleted_triangles, created, CellType::Triangle) == synced(
            triangles,
            store,
            CellType::Triangle,
        ).dom(),
{
    let device_lines = after_plan(lines.dom(), deleted_lines, created, CellType::Line);
    let cache_lines = synced(lines, store, CellType::Line).dom();
    assert forall|uid: usize| device_lines.contains(uid) <==> cache_lines.contains(uid) by {
        if device_lines.contains(uid) && !(lines.dom().contains(uid) && !deleted_lines.contains(
            uid,
        )) {
            let i = choose|i: int|
                0 <= i < created.len() && created[i].uid == uid && created[i].cell_type
                    == CellType::Line;
            assert(store.contains_key(created[i].uid));
            assert(created[i].describes(store[created[i].uid]));
        }
        if cache_lines.contains(uid) && !lines.contains_key(uid) {
            let i = choose|i: int| 0 <= i < created.len() && created[i].uid == uid;
            assert(store.contains_key(created[i].uid));
            assert(created[i].describes(store[created[i].uid]));
        }
    }
    assert(device_lines =~= cache_lines);
    let device_triangles = after_plan(
        triangles.dom(),
        deleted_triangles,
        created,
        CellType::Triangle,
    );
    let cache_triangles = synced(triangles, store, CellType::Triangle).dom();
    assert forall|uid: usize|
        device_triangles.contains(uid) <==> cache_triangles.contains(uid) by {
        if device_triangles.contains(uid) && !(triangles.dom().contains(uid)
            && !deleted_triangles.contains(uid)) {
            let i = choose|i: int|
                0 <= i < created.len() && created[i].uid == uid && created[i].cell_type
                    == CellType::Triangle;
            assert(store.contains_key(created[i].uid));
            assert(created[i].describes(store[created[i].uid]));
        }
        if cache_triangles.contains(uid) && !triangles.contains_key(uid) {
            let i = choose|i: int| 0 <= i < created.len() && created[i].uid == uid;
            assert(store.contains_key(created[i].uid));
            assert(created[i].describes(store[created[i].uid]));
        }
    }
    assert(device_triangles =~= cache_triangles);
}

/// What changes on the device in one frame: the buffers to release, by the identifier of
/// their mesh, and the buffers to create.
#[derive(Debug)]
pub struct UpdatePlan {
    pub deleted_lines: Vec<usize>,
    pub deleted_triangles: Vec<usize>,
    pub created: Vec<BufferUpload>,
}

impl UpdatePlan {
    /// Nothing is released and nothing is created.
    pub open spec fn is_empty(&self) -> bool {
        &&& self.deleted_lines@.len() == 0
        &&& self.deleted_triangles@.len() == 0
        &&& self.created@.len() == 0
    }
}

/// The pipeline with which a pass draws.
#[derive(Clone, Copy, Debug, PartialEq, Eq, Structural)]
pub enum Pipeline {
    /// Line segments.
    Line,
    /// Filled triangles.
    TriangleFace,
    /// The edges of triangles, drawn over their faces.
    TriangleEdge,
}

/// One indexed draw: the buffers of the mesh `uid`, with `index_count` indices.
#[derive(Clone, Copy, Debug, PartialEq, Eq, Structural)]
pub struct DrawCall {
    pub uid: usize,
    pub index_count: u32,
}

/// One pass of a frame: the pipeline to set and the draws to issue with it.
#[derive(Debug)]
pub struct RenderPass {
    pub pipeline: Pipeline,
    pub draws: Vec<DrawCall>,
}

/// `draws` holds one draw for each entry of `cache`, with the index count of the entry,
/// and nothing else.
pub open spec fn draws_all(draws: Seq<DrawCall>, cache: Map<usize, CachedBuffer>) -> bool {
    &&& forall|i: int, j: int| 0 <= i < j < draws.len() ==> draws[i].uid != draws[j].uid
    &&& forall|i: int|
        0 <= i < draws.len() ==> cache.contains_key(#[trigger] draws[i].uid)
            && draws[i].index_count == cache[draws[i].uid].index_count
    &&& forall|uid: usize|
        cache.contains_key(uid) ==> exists|i: int| 0 <= i < draws.len() && draws[i].uid == uid
}

/// One draw for each entry of `cache`.
fn draws_of(cache: &HashMap<usize, CachedBuffer>) -> (draws: Vec<DrawCall>)
    ensures
        draws_all(draws@, cache@),
{
    let keys = keys_of(cache);
    let mut draws: Vec<DrawCall> = Vec::new();
    let mut i: usize = 0;
    while i < keys.len()
        invariant
            i <= keys@.len(),
            keys@.no_duplicates(),
            forall|k: usize| keys@.contains(k) <==> cache@.contains_key(k),
            draws@.len() == i,
            forall|j: int|
                0 <= j < i ==> (#[trigger] draws@[j]).uid == keys@[j] && draws@[j].index_count
                    == cache@[keys@[j]].index_count,
        decreases keys@.len() - i,
    {
        let uid = keys[i];
        assert(keys@.contains(uid));
        match cache.get(&uid) {
            Some(entry) => {
                draws.push(DrawCall { uid, index_count: entry.index_count });
            },
            None => {
                draws.push(DrawCall { uid, index_count: 0 });
            },
        }
        i += 1;
    }
    proof {
        assert forall|a: int| 0 <= a < draws@.len() implies cache@.contains_key(
            #[trigger] draws@[a].uid,
        ) && draws@[a].index_count == cache@[draws@[a].uid].index_count by {
            assert(keys@.contains(keys@[a]));
        }
        assert forall|uid: usize| cache@.contains_key(uid) implies exists|a: int|
            0 <= a < draws@.len() && draws@[a].uid == uid by {
            assert(keys@.contains(uid));
            let a = choose|a: int| 0 <= a < keys@.len() && keys@[a] == uid;
            assert(draws@[a].uid == uid);
        }
    }
    draws
}

/// A copy of `draws`.
fn same_draws(draws: &Vec<DrawCall>) -> (copy: Vec<DrawCall>)
    ensures
        copy@ == draws@,
{
    let mut copy: Vec<DrawCall> = Vec::new();
    let mut i: usize = 0;
    while i < draws.len()
        invariant
            i <= draws@.len(),
            copy@ == draws@.subrange(0, i as int),
        decreases draws@.len() - i,
    {
        copy.push(draws[i]);
        i += 1;
        assert(copy@ =~= draws@.subrange(0, i as int));
    }
    assert(copy@ =~= draws@);
    copy
}

/// What is resident on the graphics device, and the surface it is drawn to: the size of
/// the surface, whether the device can draw the edges of triangles, and for each cell type
/// the buffers that hold the meshes of that type.
#[derive(Debug)]
pub struct WgpuState {
    pub width: u32,
    pub height: u32,
    pub polygon_mode_line: bool,
    pub wgpu_line_buffers: HashMap<usize, CachedBuffer>,
    pub wgpu_tri_buffers: HashMap<usize, CachedBuffer>,
    pub window: u64,
}

impl WgpuState {
    /// Every entry was made for a mesh that `store` gave an identifier to, and the
    /// entries of meshes that are still in `store` describe those meshes.
    pub open spec fn coherent<V: VertexCore>(&self, store: &MeshState<V>) -> bool {
        &&& agrees(self.wgpu_line_buffers@, store.meshes@, CellType::Line)
        &&& agrees(self.wgpu_tri_buffers@, store.meshes@, CellType::Triangle)
        &&& forall|uid: usize| #[trigger]
            self.wgpu_line_buffers@.contains_key(uid) ==> uid < store.next_uid
        &&& forall|uid: usize| #[trigger]
            self.wgpu_tri_buffers@.contains_key(uid) ==> uid < store.next_uid
    }

    /// The caches are in step with `store`: for every mesh of lines there is an entry
    /// among the line buffers, with its index count, for every mesh of triangles one
    /// among the triangle buffers, and there is no other entry.
    pub open spec fn consistent<V: VertexCore>(&self, store: &MeshState<V>) -> bool {
        &&& self.wgpu_line_buffers@ == resident(store.meshes@, CellType::Line)
        &&& self.wgpu_tri_buffers@ == resident(store.meshes@, CellType::Triangle)
    }

    /// The state for a surface of the given size in the window `window`, with nothing
    /// resident yet.
    pub fn new(window: u64, width: u32, height: u32, polygon_mode_line: bool) -> (state: Self)
        ensures
            state.window == window,
            state.width == width,
            state.height == height,
            state.polygon_mode_line == polygon_mode_line,
            state.wgpu_line_buffers@ == Map::<usize, CachedBuffer>::empty(),
            state.wgpu_tri_buffers@ == Map::<usize, CachedBuffer>::empty(),
    {
        WgpuState {
            width,
            height,
            polygon_mode_line,
            wgpu_line_buffers: HashMap::new(),
            wgpu_tri_buffers: HashMap::new(),
            window,
        }
    }

    /// Brings the caches in step with `mesh_state` and says what that takes on the
    /// device. Buffers of meshes that are gone are released, buffers of meshes that stayed
    /// are left alone, and each new mesh gets its buffers, written once.
    pub fn update<V: VertexCore>(&mut self, mesh_state: &MeshState<V>) -> (plan: UpdatePlan)
        ensures
            final(self).wgpu_line_buffers@ == synced(
                old(self).wgpu_line_buffers@,
                mesh_state.meshes@,
                CellType::Line,
            ),
            final(self).wgpu_tri_buffers@ == synced(
                old(self).wgpu_tri_buffers@,
                mesh_state.meshes@,
                CellType::Triangle,
            ),
            final(self).width == old(self).width,
            final(self).height == old(self).height,
            final(self).polygon_mode_line == old(self).polygon_mode_line,
            final(self).window == old(self).window,
            evicts(plan.deleted_lines@, old(self).wgpu_line_buffers@, mesh_state.meshes@),
            evicts(plan.deleted_triangles@, old(self).wgpu_tri_buffers@, mesh_state.meshes@),
            uploads(
                plan.created@,
                old(self).wgpu_line_buffers@,
                old(self).wgpu_tri_buffers@,
                mesh_state.meshes@,
            ),
            old(self).coherent(mesh_state) && mesh_state.wf() ==> final(self).consistent(
                mesh_state,
            ) && final(self).coherent(mesh_state),
            old(self).consistent(mesh_state) ==> plan.is_empty() && final(self).wgpu_line_buffers@
                == old(self).wgpu_line_buffers@ && final(self).wgpu_tri_buffers@
                == old(self).wgpu_tri_buffers@,
    {
        let ghost lines_before = self.wgpu_line_buffers@;
        let ghost triangles_before = self.wgpu_tri_buffers@;
        let ghost store = mesh_state.meshes@;
        let deleted_lines = evict(&mut self.wgpu_line_buffers, &mesh_state.meshes);
        let deleted_triangles = evict(&mut self.wgpu_tri_buffers, &mesh_state.meshes);
        let ghost lines_kept = self.wgpu_line_buffers@;
        let ghost triangles_kept = self.wgpu_tri_buffers@;
        let created = populate(
            &mut self.wgpu_line_buffers,
            &mut self.wgpu_tri_buffers,
            &mesh_state.meshes,
        );
        proof {
            assert forall|i: int| 0 <= i < created@.len() implies !cache_for(
                lines_before,
                triangles_before,
                created@[i].cell_type,
            ).contains_key(#[trigger] created@[i].uid) by {
                assert(store.contains_key(created@[i].uid));
                assert(!cache_for(lines_kept, triangles_kept, created@[i].cell_type).contains_key(
                    created@[i].uid,
                ));
            }
            assert forall|uid: usize|
                store.contains_key(uid) && store[uid].cell_type != CellType::Unset && !cache_for(
                    lines_before,
                    triangles_before,
                    store[uid].cell_type,
                ).contains_key(uid) implies exists|i: int|
                0 <= i < created@.len() && created@[i].uid == uid by {
                assert(!cache_for(lines_kept, triangles_kept, store[uid].cell_type).contains_key(
                    uid,
                ));
            }
            if old(self).coherent(mesh_state) && mesh_state.wf() {
                lemma_synced_is_resident(lines_before, store, CellType::Line);
                lemma_synced_is_resident(triangles_before, store, CellType::Triangle);
            }
            if old(self).consistent(mesh_state) {
                lemma_synced_again(store, CellType::Line, deleted_lines@);
                lemma_synced_again(store, CellType::Triangle, deleted_triangles@);
                if created@.len() > 0 {
                    let up = created@[0];
                    assert(store.contains_key(up.uid));
                    assert(up.describes(store[up.uid]));
                }
            }
        }
        UpdatePlan { deleted_lines, deleted_triangles, created }
    }

    /// The passes of one frame, in the order in which they are drawn: all meshes of
    /// lines, then the faces of all meshes of triangles, then, where the device can draw
    /// them, the edges of the same triangles.
    pub fn render(&self) -> (passes: Vec<RenderPass>)
        ensures
            passes@.len() == if self.polygon_mode_line {
                3nat
            } else {
                2nat
            },
            passes@[0].pipeline == Pipeline::Line,
            draws_all(passes@[0].draws@, self.wgpu_line_buffers@),
            passes@[1].pipeline == Pipeline::TriangleFace,
            draws_all(passes@[1].draws@, self.wgpu_tri_buffers@),
            self.polygon_mode_line ==> passes@[2].pipeline == Pipeline::TriangleEdge
                && passes@[2].draws@ == passes@[1].draws@,
    {
        let mut passes: Vec<RenderPass> = Vec::new();
        let lines = draws_of(&self.wgpu_line_buffers);
        passes.push(RenderPass { pipeline: Pipeline::Line, draws: lines });
        let faces = draws_of(&self.wgpu_tri_buffers);
        let edges = same_draws(&faces);
        passes.push(RenderPass { pipeline: Pipeline::TriangleFace, draws: faces });
        if self.polygon_mode_line {
            passes.push(RenderPass { pipeline: Pipeline::TriangleEdge, draws: edges });
        }
        passes
    }

    /// Records the new size of the surface. The buffers of the meshes are not touched.
    pub fn resize(&mut self, width: u32, height: u32)
        ensures
            final(self).width == width,
            final(self).height == height,
            final(self).polygon_mode_line == old(self).polygon_mode_line,
            final(self).window == old(self).window,
            final(self).wgpu_line_buffers == old(self).wgpu_line_buffers,
            final(self).wgpu_tri_buffers == old(self).wgpu_tri_buffers,
    {
        self.width = width;
        self.height = height;
    }
}

} // verus!
