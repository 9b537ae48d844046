//! The mesh shared by the planar and the spatial viewer.
//!
//! Both viewers draw line segments and triangles; they differ in how many words a vertex
//! takes and where its colours sit. A mesh is therefore written once, over a vertex type
//! that describes its own layout.
use crate::common::{CellType, Color};
use std::marker::PhantomData;
use vstd::prelude::*;

verus! {

/// A packed vertex: a fixed number of words holding the position and, at known offsets,
/// the colour used when the vertex is part of a line and the one used for a triangle.
pub trait VertexCore: Sized {
    /// Words per vertex.
    spec fn spec_len() -> nat;

    /// Index of the first position word.
    spec fn spec_position_offset() -> nat;

    /// Index of the first of the three line-colour words.
    spec fn spec_line_color_offset() -> nat;

    /// Index of the first of the three triangle-colour words.
    spec fn spec_triangle_color_offset() -> nat;

    /// Number of coordinates of the position.
    spec fn spec_dim() -> nat;

    /// The words of this vertex.
    spec fn words(&self) -> Seq<u32>;

    /// Position and colours lie inside the vertex.
    proof fn lemma_layout()
        ensures
            Self::spec_len() > 0,
            Self::spec_position_offset() + Self::spec_dim() <= Self::spec_len(),
            Self::spec_line_color_offset() + 3 <= Self::spec_len(),
            Self::spec_triangle_color_offset() + 3 <= Self::spec_len(),
    ;

    fn to_slice(&self) -> (s: &[u32])
        ensures
            s@ == self.words(),
            s@.len() == Self::spec_len(),
    ;

    fn position_offset() -> (n: usize)
        ensures
            n == Self::spec_position_offset(),
    ;

    fn line_color_offset() -> (n: usize)
        ensures
            n == Self::spec_line_color_offset(),
    ;

    fn triangle_color_offset() -> (n: usize)
        ensures
            n == Self::spec_triangle_color_offset(),
    ;

    fn len() -> (n: usize)
        ensures
            n == Self::spec_len(),
    ;

    fn dim() -> (n: usize)
        ensures
            n == Self::spec_dim(),
    ;
}

/// The words `words` with those from `at` on replaced by `part`.
pub open spec fn overwritten(words: Seq<u32>, at: int, part: Seq<u32>) -> Seq<u32> {
    Seq::new(
        words.len(),
        |k: int|
            if at <= k < at + part.len() {
                part[k - at]
            } else {
                words[k]
            },
    )
}

/// A view of the words of one vertex inside a mesh, through which its position and its
/// colours can be read and written in place.
pub trait VertexViewCore<'a>: Sized {
    /// The position of a vertex.
    type Vec;

    /// The vertex whose layout the view follows.
    type Vertex: VertexCore;

    /// The words under the view.
    spec fn words(&self) -> Seq<u32>;

    /// The coordinates of a position, in storage order.
    spec fn coordinates(pos: &Self::Vec) -> Seq<u32>;

    /// A position has as many coordinates as the layout gives it.
    proof fn lemma_coordinates(pos: &Self::Vec)
        ensures
            Self::coordinates(pos).len() == Self::Vertex::spec_dim(),
    ;

    fn new(vert_slice: &'a mut [u32]) -> (view: Self)
        ensures
            view.words() == old(vert_slice)@,
    ;

    fn set_position(&mut self, pos: &Self::Vec)
        requires
            old(self).words().len() == Self::Vertex::spec_len(),
        ensures
            final(self).words() == overwritten(
                old(self).words(),
                Self::Vertex::spec_position_offset() as int,
                Self::coordinates(pos),
            ),
    ;

    fn get_position(&self) -> (pos: Self::Vec)
        requires
            self.words().len() == Self::Vertex::spec_len(),
        ensures
            Self::coordinates(&pos) == self.words().subrange(
                Self::Vertex::spec_position_offset() as int,
                (Self::Vertex::spec_position_offset() + Self::Vertex::spec_dim()) as int,
            ),
    ;

    fn set_line_color(&mut self, color: &[u32; 3])
        requires
            old(self).words().len() == Self::Vertex::spec_len(),
        ensures
            final(self).words() == overwritten(
                old(self).words(),
                Self::Vertex::spec_line_color_offset() as int,
                color@,
            ),
    ;

    fn get_line_color(&self) -> (color: [u32; 3])
        requires
            self.words().len() == Self::Vertex::spec_len(),
        ensures
            color@ == self.words().subrange(
                Self::Vertex::spec_line_color_offset() as int,
                Self::Vertex::spec_line_color_offset() as int + 3,
            ),
    ;

    fn set_triangle_color(&mut self, color: &[u32; 3])
        requires
            old(self).words().len() == Self::Vertex::spec_len(),
        ensures
            final(self).words() == overwritten(
                old(self).words(),
                Self::Vertex::spec_triangle_color_offset() as int,
                color@,
            ),
    ;

    fn get_triangle_color(&self) -> (color: [u32; 3])
        requires
            self.words().len() == Self::Vertex::spec_len(),
        ensures
            color@ == self.words().subrange(
                Self::Vertex::spec_triangle_color_offset() as int,
                Self::Vertex::spec_triangle_color_offset() as int + 3,
            ),
    ;
}

/// Geometry of one scene entity: packed vertices, indices into them, and how the indices
/// are grouped into cells.
#[derive(Debug)]
pub struct MeshCore<V: VertexCore> {
    pub vertices: Vec<u32>,
    pub indices: Vec<u32>,
    pub cell_type: CellType,
    pub uid: usize,
    pub phant: PhantomData<V>,
}

/// The words `words` read as vertices of `len` words, with the three words at `offset` of
/// each whole vertex replaced by `rgb`.
pub open spec fn painted(words: Seq<u32>, len: int, offset: int, rgb: Seq<u32>) -> Seq<u32> {
    Seq::new(
        words.len(),
        |k: int|
            if k / len < words.len() / (len as nat) && offset <= k % len < offset + 3 {
                rgb[k % len - offset]
            } else {
                words[k]
            },
    )
}

/// The words `words` read as vertices of `len` words, with the three words at `offset` of
/// the `i`-th whole vertex replaced by `colors[i]`.
pub open spec fn painted_each(
    words: Seq<u32>,
    len: int,
    offset: int,
    colors: Seq<[u32; 3]>,
) -> Seq<u32> {
    Seq::new(
        words.len(),
        |k: int|
            if k / len < words.len() / (len as nat) && offset <= k % len < offset + 3 {
                colors[k / len]@[k % len - offset]
            } else {
                words[k]
            },
    )
}

/// Word `j` of vertex `i` sits at `i * len + j`: dividing by `len` gives the vertex back,
/// the remainder gives the word.
proof fn lemma_vertex_word(i: int, j: int, len: int)
    requires
        0 <= i,
        0 <= j < len,
    ensures
        (i * len + j) / len == i,
        (i * len + j) % len == j,
        i * len + j < (i + 1) * len,
{
    vstd::arithmetic::div_mod::lemma_fundamental_div_mod_converse(i * len + j, len, i, j);
    assert((i + 1) * len == i * len + len) by (nonlinear_arith);
}

/// Corner `j` of cell `i`, in a list of cells of `arity` corners each, sits at
/// `arity * i + j`.
pub(crate) proof fn lemma_cell_corner(i: int, j: int, arity: int)
    requires
        0 <= i,
        0 <= j < arity,
    ensures
        (arity * i + j) / arity == i,
        (arity * i + j) % arity == j,
        0 <= arity * i,
{
    assert(arity * i + j == i * arity + j) by (nonlinear_arith);
    vstd::arithmetic::div_mod::lemma_fundamental_div_mod_converse(arity * i + j, arity, i, j);
    assert(0 <= arity * i) by (nonlinear_arith)
        requires
            0 <= i,
            0 < arity,
    ;
}

/// Appends the cell `cell` to `out`, which holds the first `c` cells of `goal`; after that
/// it holds the first `c + 1`.
pub(crate) fn extend_cell(
    out: &mut Vec<u32>,
    cell: &[u32],
    Ghost(goal): Ghost<Seq<u32>>,
    Ghost(c): Ghost<int>,
)
    requires
        0 <= c,
        old(out)@.len() == cell@.len() * c,
        forall|k: int| 0 <= k < old(out)@.len() ==> old(out)@[k] == goal[k],
        forall|t: int| 0 <= t < cell@.len() ==> cell@[t] == goal[cell@.len() * c + t],
    ensures
        final(out)@ == old(out)@ + cell@,
        final(out)@.len() == cell@.len() * (c + 1),
        forall|k: int| 0 <= k < final(out)@.len() ==> final(out)@[k] == goal[k],
{
    let ghost before = out@;
    out.extend_from_slice(cell);
    proof {
        assert(out@ =~= before + cell@);
        let a = cell@.len() as int;
        assert(a * (c + 1) == a * c + a) by (nonlinear_arith);
        assert forall|k: int| 0 <= k < out@.len() implies out@[k] == goal[k] by {
            if k >= before.len() {
                let t = k - before.len();
                assert(cell@[t] == goal[a * c + t]);
            }
        }
    }
}

/// The indices of a mesh in which every cell has its own vertices: they count up.
pub open spec fn counting(n: nat) -> Seq<u32> {
    Seq::new(n, |i: int| i as u32)
}

/// Every word of a whole vertex lies inside the vertex data.
proof fn lemma_vertex_in_bounds(i: int, len: int, total: int)
    requires
        0 <= i < total / len,
        0 < len,
        0 <= total,
    ensures
        (i + 1) * len <= total,
        0 <= i * len,
{
    vstd::arithmetic::div_mod::lemma_fundamental_div_mod(total, len);
    vstd::arithmetic::div_mod::lemma_mod_bound(total, len);
    let q = total / len;
    assert((i + 1) * len <= q * len) by (nonlinear_arith)
        requires
            i + 1 <= q,
            0 < len,
    ;
    assert(q * len == len * q) by (nonlinear_arith);
    assert(0 <= i * len) by (nonlinear_arith)
        requires
            0 <= i,
            0 < len,
    ;
}

/// Room for `count` cells of `arity` vertices of `len` words each fits wherever the product
/// of the three does.
proof fn lemma_room(arity: int, len: int, count: int)
    requires
        0 < arity,
        0 < len,
        0 <= count,
    ensures
        arity * (len * count) == arity * len * count,
        0 <= len * count <= arity * len * count,
        0 <= arity * count <= arity * len * count,
{
    assert(arity * (len * count) == arity * len * count) by (nonlinear_arith);
    assert(0 <= len * count <= arity * (len * count)) by (nonlinear_arith)
        requires
            0 < arity,
            0 < len,
            0 <= count,
    ;
    assert(0 <= arity * count <= arity * (len * count)) by (nonlinear_arith)
        requires
            0 < arity,
            0 < len,
            0 <= count,
    ;
}

/// Two meshes are the same entity when they carry the same identifier.
impl<V: VertexCore> PartialEq for MeshCore<V> {
    fn eq(&self, other: &Self) -> (same: bool) {
        self.uid == other.uid
    }
}

impl<V: VertexCore> vstd::std_specs::cmp::PartialEqSpecImpl for MeshCore<V> {
    open spec fn obeys_eq_spec() -> bool {
        true
    }

    open spec fn eq_spec(&self, other: &Self) -> bool {
        self.uid == other.uid
    }
}

impl<V: VertexCore> Clone for MeshCore<V> {
    fn clone(&self) -> (out: Self)
        ensures
            out.vertices@ == self.vertices@,
            out.indices@ == self.indices@,
            out.cell_type == self.cell_type,
            out.uid == self.uid,
    {
        let out = MeshCore {
            vertices: self.vertices.clone(),
            indices: self.indices.clone(),
            cell_type: self.cell_type,
            uid: self.uid,
            phant: PhantomData,
        };
        assert(out.vertices@ =~= self.vertices@);
        assert(out.indices@ =~= self.indices@);
        out
    }
}

/// Vertex words and indices that can be drawn as cells of `cell_type`, with `len` words to a
/// vertex: the cells are lines or triangles, the words make whole vertices, the indices
/// make whole cells, and every index names a vertex that is there.
pub open spec fn drawable(cell_type: CellType, vertices: Seq<u32>, indices: Seq<u32>, len: nat) -> bool {
    &&& cell_type != CellType::Unset
    &&& vertices.len() % len == 0
    &&& indices.len() % (cell_type.arity() as nat) == 0
    &&& forall|i: int| 0 <= i < indices.len() ==> indices[i] < vertices.len() / len
}

/// Whether `vertices` and `indices` can be drawn as cells of `cell_type`.
pub fn is_drawable(cell_type: CellType, vertices: &[u32], indices: &[u32], len: usize) -> (ok: bool)
    requires
        len > 0,
    ensures
        ok == drawable(cell_type, vertices@, indices@, len as nat),
{
    let arity: usize = match cell_type {
        CellType::Unset => {
            return false;
        },
        CellType::Line => 2,
        CellType::Triangle => 3,
    };
    if vertices.len() % len != 0 || indices.len() % arity != 0 {
        return false;
    }
    let nv = vertices.len() / len;
    let n = indices.len();
    let mut i: usize = 0;
    while i < n
        invariant
            i <= n,
            n == indices@.len(),
            nv == vertices@.len() / (len as nat),
            forall|j: int| 0 <= j < i ==> indices@[j] < nv,
        decreases n - i,
    {
        if indices[i] as usize >= nv {
            return false;
        }
        i += 1;
    }
    true
}

impl<V: VertexCore> MeshCore<V> {
    /// Number of whole vertices held.
    pub open spec fn vertex_count(&self) -> nat {
        self.vertices@.len() / V::spec_len()
    }

    /// The mesh is drawable: it is made of lines or of triangles, holds whole vertices and
    /// whole cells, and every index names a vertex that is there.
    pub open spec fn valid(&self) -> bool {
        drawable(self.cell_type, self.vertices@, self.indices@, V::spec_len())
    }

    /// An empty mesh of line segments, with room for `num_lines` of them.
    pub fn from_num_lines(num_lines: usize) -> (mesh: Self)
        requires
            2 * V::spec_len() * num_lines <= usize::MAX,
        ensures
            mesh.vertices@.len() == 0,
            mesh.indices@.len() == 0,
            mesh.cell_type == CellType::Line,
            mesh.uid == 0,
            mesh.valid(),
    {
        proof {
            V::lemma_layout();
            lemma_room(2, V::spec_len() as int, num_lines as int);
            vstd::arithmetic::div_mod::lemma_small_mod(0, V::spec_len());
        }
        MeshCore {
            vertices: Vec::with_capacity(2 * (V::len() * num_lines)),
            indices: Vec::with_capacity(2 * num_lines),
            cell_type: CellType::Line,
            uid: 0,
            phant: PhantomData,
        }
    }

    /// An empty mesh of triangles, with room for `num_triangles` of them.
    pub fn from_num_triangles(num_triangles: usize) -> (mesh: Self)
        requires
            3 * V::spec_len() * num_triangles <= usize::MAX,
        ensures
            mesh.vertices@.len() == 0,
            mesh.indices@.len() == 0,
            mesh.cell_type == CellType::Triangle,
            mesh.uid == 0,
            mesh.valid(),
    {
        proof {
            V::lemma_layout();
            lemma_room(3, V::spec_len() as int, num_triangles as int);
            vstd::arithmetic::div_mod::lemma_small_mod(0, V::spec_len());
        }
        MeshCore {
            vertices: Vec::with_capacity(3 * (V::len() * num_triangles)),
            indices: Vec::with_capacity(3 * num_triangles),
            cell_type: CellType::Triangle,
            uid: 0,
            phant: PhantomData,
        }
    }

    /// The words of the `i`-th vertex.
    pub open spec fn vertex_words(&self, i: int) -> Seq<u32> {
        self.vertices@.subrange(i * V::spec_len(), (i + 1) * V::spec_len())
    }

    /// The mesh holds exactly the vertices `vertices`, in their order.
    pub open spec fn holds(&self, vertices: Seq<V>) -> bool {
        &&& self.vertices@.len() == vertices.len() * V::spec_len()
        &&& self.vertex_count() == vertices.len()
        &&& forall|i: int|
            0 <= i < vertices.len() ==> #[trigger] self.vertex_words(i) == vertices[i].words()
    }

    /// A mesh with the vertices `vertices` and the indices `indices`.
    pub fn from_parts(cell_type: CellType, vertices: &[V], indices: Vec<u32>) -> (mesh: Self)
        ensures
            mesh.cell_type == cell_type,
            mesh.uid == 0,
            mesh.indices == indices,
            mesh.holds(vertices@),
            mesh.valid() <==> cell_type != CellType::Unset && indices@.len() % (
            cell_type.arity() as nat) == 0 && forall|i: int|
                0 <= i < indices@.len() ==> indices@[i] < vertices@.len(),
    {
        proof {
            V::lemma_layout();
        }
        let len = V::len();
        let mut words: Vec<u32> = Vec::new();
        let mut i: usize = 0;
        while i < vertices.len()
            invariant
                i <= vertices@.len(),
                len == V::spec_len(),
                0 < len,
                words@.len() == i * len,
                forall|j: int|
                    0 <= j < i ==> #[trigger] words@.subrange(j * len, (j + 1) * len)
                        == vertices@[j].words(),
            decreases vertices@.len() - i,
        {
            let ghost before = words@;
            words.extend_from_slice(vertices[i].to_slice());
            proof {
                assert(words@ =~= before + vertices@[i as int].words());
                assert((i + 1) * len == i * len + len) by (nonlinear_arith);
                assert forall|j: int| 0 <= j < i + 1 implies #[trigger] words@.subrange(
                    j * len,
                    (j + 1) * len,
                ) == vertices@[j].words() by {
                    assert((j + 1) * len == j * len + len) by (nonlinear_arith);
                    assert(0 <= j * len) by (nonlinear_arith)
                        requires
                            0 <= j,
                            0 < len,
                    ;
                    if j < i {
                        assert((j + 1) * len <= i * len) by (nonlinear_arith)
                            requires
                                j + 1 <= i,
                                0 < len,
                        ;
                        assert(words@.subrange(j * len, (j + 1) * len) =~= before.subrange(
                            j * len,
                            (j + 1) * len,
                        ));
                    } else {
                        assert(words@.subrange(j * len, (j + 1) * len) =~= vertices@[j].words());
                    }
                }
            }
            i += 1;
        }
        let mesh = MeshCore { vertices: words, indices, cell_type, uid: 0, phant: PhantomData };
        proof {
            let n = vertices@.len() as int;
            vstd::arithmetic::div_mod::lemma_fundamental_div_mod_converse(n * len, len as int, n, 0);
        }
        mesh
    }

    /// A mesh whose cells are given corner by corner: every cell has its own vertices,
    /// and the indices count them up.
    pub fn from_cells(cell_type: CellType, vertices: &[V]) -> (mesh: Self)
        requires
            vertices@.len() <= u32::MAX,
        ensures
            mesh.cell_type == cell_type,
            mesh.uid == 0,
            mesh.holds(vertices@),
            mesh.indices@ == counting(vertices@.len()),
            cell_type != CellType::Unset && vertices@.len() % (cell_type.arity() as nat) == 0
                ==> mesh.valid(),
    {
        let mut indices: Vec<u32> = Vec::new();
        let mut i: usize = 0;
        while i < vertices.len()
            invariant
                i <= vertices@.len() <= u32::MAX,
                indices@ == Seq::new(i as nat, |k: int| k as u32),
            decreases vertices@.len() - i,
        {
            indices.push(i as u32);
            i += 1;
            assert(indices@ =~= Seq::new(i as nat, |k: int| k as u32));
        }
        Self::from_parts(cell_type, vertices, indices)
    }

    pub fn is_line(&self) -> (b: bool)
        ensures
            b == (self.cell_type == CellType::Line),
    {
        self.cell_type == CellType::Line
    }

    pub fn is_triangle(&self) -> (b: bool)
        ensures
            b == (self.cell_type == CellType::Triangle),
    {
        self.cell_type == CellType::Triangle
    }

    pub fn num_vertices(&self) -> (n: usize)
        ensures
            n == self.vertex_count(),
    {
        proof {
            V::lemma_layout();
        }
        self.vertices.len() / V::len()
    }

    pub fn num_indices(&self) -> (n: usize)
        ensures
            n == self.indices@.len(),
    {
        self.indices.len()
    }

    pub fn num_triangles(&self) -> (n: usize)
        ensures
            n == self.indices@.len() / 3,
    {
        self.indices.len() / 3
    }

    pub fn vertex_slice(&self) -> (s: &[u32])
        ensures
            s@ == self.vertices@,
    {
        self.vertices.as_slice()
    }

    pub fn index_slice(&self) -> (s: &[u32])
        ensures
            s@ == self.indices@,
    {
        self.indices.as_slice()
    }

    /// Adds `shift` to every index, as needed when the vertices they name are moved
    /// behind `shift` others.
    pub fn shift_indices(&mut self, shift: usize)
        requires
            forall|i: int|
                0 <= i < old(self).indices@.len() ==> old(self).indices@[i] + shift <= u32::MAX,
        ensures
            final(self).indices@.len() == old(self).indices@.len(),
            forall|i: int|
                0 <= i < old(self).indices@.len() ==> #[trigger] final(self).indices@[i]
                    == old(self).indices@[i] + shift,
            final(self).vertices == old(self).vertices,
            final(self).cell_type == old(self).cell_type,
            final(self).uid == old(self).uid,
    {
        let n = self.indices.len();
        let mut i: usize = 0;
        while i < n
            invariant
                n == self.indices@.len(),
                n == old(self).indices@.len(),
                i <= n,
                forall|j: int| 0 <= j < i ==> #[trigger] self.indices@[j] == old(self).indices@[j] + shift,
                forall|j: int| i <= j < n ==> #[trigger] self.indices@[j] == old(self).indices@[j],
                forall|j: int| 0 <= j < n ==> old(self).indices@[j] + shift <= u32::MAX,
                self.vertices == old(self).vertices,
                self.cell_type == old(self).cell_type,
                self.uid == old(self).uid,
            decreases n - i,
        {
            let x = self.indices[i];
            self.indices[i] = x + (shift as u32);
            i += 1;
        }
    }

    pub fn append_vertex(&mut self, vertex: &V)
        ensures
            final(self).vertices@ == old(self).vertices@ + vertex.words(),
            final(self).indices == old(self).indices,
            final(self).cell_type == old(self).cell_type,
            final(self).uid == old(self).uid,
    {
        self.vertices.extend_from_slice(vertex.to_slice());
    }

    pub fn append_indices(&mut self, indices: &[u32])
        ensures
            final(self).indices@ == old(self).indices@ + indices@,
            final(self).vertices == old(self).vertices,
            final(self).cell_type == old(self).cell_type,
            final(self).uid == old(self).uid,
    {
        self.indices.extend_from_slice(indices);
    }

    /// Appends the geometry of `other`, whose indices are moved behind the vertices that
    /// `self` already holds.
    pub fn merge(&mut self, other: MeshCore<V>)
        requires
            old(self).cell_type == other.cell_type,
            forall|i: int|
                0 <= i < other.indices@.len() ==> other.indices@[i] + old(self).vertex_count()
                    <= u32::MAX,
        ensures
            final(self).vertices@ == old(self).vertices@ + other.vertices@,
            final(self).indices@.len() == old(self).indices@.len() + other.indices@.len(),
            forall|i: int|
                0 <= i < old(self).indices@.len() ==> #[trigger] final(self).indices@[i]
                    == old(self).indices@[i],
            forall|i: int|
                0 <= i < other.indices@.len() ==> #[trigger] final(self).indices@[old(self).indices@.len()
                    + i] == other.indices@[i] + old(self).vertex_count(),
            final(self).cell_type == old(self).cell_type,
            final(self).uid == old(self).uid,
            old(self).valid() && other.valid() ==> final(self).valid(),
    {
        let mut other = other;
        let ghost theirs = other;
        let nv = self.num_vertices();
        other.shift_indices(nv);
        self.vertices.extend_from_slice(other.vertices.as_slice());
        self.indices.extend_from_slice(other.indices.as_slice());
        proof {
            assert(self.vertices@ =~= old(self).vertices@ + theirs.vertices@);
            if old(self).valid() && theirs.valid() {
                Self::lemma_merge_valid(*old(self), theirs, *self);
            }
        }
    }

    proof fn lemma_merge_valid(a: Self, b: Self, out: Self)
        requires
            a.valid(),
            b.valid(),
            a.cell_type == b.cell_type,
            out.cell_type == a.cell_type,
            out.vertices@ == a.vertices@ + b.vertices@,
            out.indices@.len() == a.indices@.len() + b.indices@.len(),
            forall|i: int| 0 <= i < a.indices@.len() ==> #[trigger] out.indices@[i] == a.indices@[i],
            forall|i: int|
                0 <= i < b.indices@.len() ==> #[trigger] out.indices@[a.indices@.len() + i]
                    == b.indices@[i] + a.vertex_count(),
        ensures
            out.valid(),
    {
        V::lemma_layout();
        let len = V::spec_len() as int;
        let na = a.vertices@.len() as int;
        let nb = b.vertices@.len() as int;
        let k = a.cell_type.arity();
        vstd::arithmetic::div_mod::lemma_fundamental_div_mod(na, len);
        vstd::arithmetic::div_mod::lemma_fundamental_div_mod(nb, len);
        let qa = na / len;
        let qb = nb / len;
        assert(na + nb == (qa + qb) * len + 0) by (nonlinear_arith)
            requires
                na == len * qa,
                nb == len * qb,
        ;
        vstd::arithmetic::div_mod::lemma_fundamental_div_mod_converse(na + nb, len, qa + qb, 0);
        assert(out.vertex_count() == qa + qb);
        let ia = a.indices@.len() as int;
        let ib = b.indices@.len() as int;
        vstd::arithmetic::div_mod::lemma_fundamental_div_mod(ia, k);
        vstd::arithmetic::div_mod::lemma_fundamental_div_mod(ib, k);
        assert(ia + ib == (ia / k + ib / k) * k + 0) by (nonlinear_arith)
            requires
                ia == k * (ia / k),
                ib == k * (ib / k),
        ;
        vstd::arithmetic::div_mod::lemma_fundamental_div_mod_converse(
            ia + ib,
            k,
            ia / k + ib / k,
            0,
        );
        assert forall|i: int| 0 <= i < out.indices@.len() implies out.indices@[i]
            < out.vertex_count() by {
            if i < ia {
                assert(out.indices@[i] == a.indices@[i]);
            } else {
                let j = i - ia;
                assert(out.indices@[ia + j] == b.indices@[j] + a.vertex_count());
            }
        }
    }

    /// A valid mesh stays valid when one cell is appended together with its vertices: as
    /// many whole vertices as the cell has corners, named by the new indices in order.
    pub proof fn lemma_cell_keeps_valid(before: Self, after: Self)
        requires
            before.valid(),
            after.cell_type == before.cell_type,
            after.vertices@.len() == before.vertices@.len() + before.cell_type.arity()
                * V::spec_len(),
            after.indices@.len() == before.indices@.len() + before.cell_type.arity(),
            forall|i: int|
                0 <= i < before.indices@.len() ==> after.indices@[i] == before.indices@[i],
            forall|j: int|
                0 <= j < before.cell_type.arity() ==> #[trigger] after.indices@[before.indices@.len()
                    + j] == before.vertex_count() + j,
        ensures
            after.valid(),
            after.vertex_count() == before.vertex_count() + before.cell_type.arity(),
    {
        V::lemma_layout();
        let len = V::spec_len() as int;
        let k = before.cell_type.arity();
        let total = before.vertices@.len() as int;
        let n = before.indices@.len() as int;
        vstd::arithmetic::div_mod::lemma_fundamental_div_mod(total, len);
        let q = total / len;
        assert(total + k * len == (q + k) * len + 0) by (nonlinear_arith)
            requires
                total == len * q,
        ;
        vstd::arithmetic::div_mod::lemma_fundamental_div_mod_converse(
            total + k * len,
            len,
            q + k,
            0,
        );
        vstd::arithmetic::div_mod::lemma_fundamental_div_mod(n, k);
        assert(n + k == (n / k + 1) * k + 0) by (nonlinear_arith)
            requires
                n == k * (n / k),
        ;
        vstd::arithmetic::div_mod::lemma_fundamental_div_mod_converse(n + k, k, n / k + 1, 0);
        assert forall|i: int| 0 <= i < after.indices@.len() implies after.indices@[i]
            < after.vertex_count() by {
            if i >= n {
                let j = i - n;
                assert(after.indices@[n + j] == before.vertex_count() + j);
            }
        }
    }

    /// A valid mesh stays valid when the indices of one cell are appended that name
    /// vertices of the mesh.
    pub proof fn lemma_indices_keep_valid(before: Self, after: Self)
        requires
            before.valid(),
            after.cell_type == before.cell_type,
            after.vertices@ == before.vertices@,
            after.indices@.len() == before.indices@.len() + before.cell_type.arity(),
            forall|i: int|
                0 <= i < before.indices@.len() ==> after.indices@[i] == before.indices@[i],
            forall|i: int|
                before.indices@.len() <= i < after.indices@.len() ==> after.indices@[i]
                    < before.vertex_count(),
        ensures
            after.valid(),
    {
        let k = before.cell_type.arity();
        let n = before.indices@.len() as int;
        vstd::arithmetic::div_mod::lemma_fundamental_div_mod(n, k);
        assert(n + k == (n / k + 1) * k + 0) by (nonlinear_arith)
            requires
                n == k * (n / k),
        ;
        vstd::arithmetic::div_mod::lemma_fundamental_div_mod_converse(n + k, k, n / k + 1, 0);
    }

    /// Whether the mesh is drawable.
    pub fn check(&self) -> (ok: bool)
        ensures
            ok == self.valid(),
    {
        proof {
            V::lemma_layout();
        }
        is_drawable(self.cell_type, self.vertices.as_slice(), self.indices.as_slice(), V::len())
    }

    fn paint(&mut self, offset: usize, color: Color)
        requires
            offset + 3 <= V::spec_len(),
        ensures
            final(self).vertices@ == painted(
                old(self).vertices@,
                V::spec_len() as int,
                offset as int,
                color.rgb(),
            ),
            final(self).indices == old(self).indices,
            final(self).cell_type == old(self).cell_type,
            final(self).uid == old(self).uid,
    {
        let nv = self.num_vertices();
        let len = V::len();
        let rgb = color.to_rgb();
        let ghost before = self.vertices@;
        assert(before.len() == self.vertices.len());
        let ghost goal = painted(before, len as int, offset as int, rgb@);
        let mut i: usize = 0;
        while i < nv
            invariant
                i <= nv,
                nv == before.len() / (len as nat),
                i * len <= before.len() <= usize::MAX,
                len == V::spec_len(),
                0 < len,
                offset + 3 <= len,
                before == old(self).vertices@,
                self.vertices@.len() == before.len(),
                goal == painted(before, len as int, offset as int, rgb@),
                rgb@.len() == 3,
                forall|k: int| 0 <= k < i * len ==> #[trigger] self.vertices@[k] == goal[k],
                forall|k: int|
                    i * len <= k < before.len() ==> #[trigger] self.vertices@[k] == before[k],
                self.indices == old(self).indices,
                self.cell_type == old(self).cell_type,
                self.uid == old(self).uid,
            decreases nv - i,
        {
            proof {
                lemma_vertex_in_bounds(i as int, len as int, before.len() as int);
                lemma_vertex_word(i as int, offset as int, len as int);
                lemma_vertex_word(i as int, offset + 1, len as int);
                lemma_vertex_word(i as int, offset + 2, len as int);
                assert((i + 1) * len == i * len + len) by (nonlinear_arith);
                assert(i * len + len <= before.len());
            }
            let at = i * len + offset;
            self.vertices[at] = rgb[0];
            self.vertices[at + 1] = rgb[1];
            self.vertices[at + 2] = rgb[2];
            proof {
                assert forall|k: int| 0 <= k < (i + 1) * len implies #[trigger] self.vertices@[k]
                    == goal[k] by {
                    if k >= i * len {
                        let j = k - i * len;
                        lemma_vertex_word(i as int, j, len as int);
                    }
                }
            }
            i += 1;
        }
        proof {
            assert forall|k: int| 0 <= k < before.len() implies self.vertices@[k] == goal[k] by {
                if k >= nv * len {
                    vstd::arithmetic::div_mod::lemma_fundamental_div_mod(k, len as int);
                    vstd::arithmetic::div_mod::lemma_mod_bound(k, len as int);
                    let q = k / (len as int);
                    if q < nv {
                        assert(len * q + len <= nv * len) by (nonlinear_arith)
                            requires
                                q + 1 <= nv,
                                0 < len,
                        ;
                    }
                }
            }
            assert(self.vertices@ =~= goal);
        }
    }

    fn paint_each(&mut self, offset: usize, colors: &[[u32; 3]])
        requires
            offset + 3 <= V::spec_len(),
            colors@.len() == old(self).vertex_count(),
        ensures
            final(self).vertices@ == painted_each(
                old(self).vertices@,
                V::spec_len() as int,
                offset as int,
                colors@,
            ),
            final(self).indices == old(self).indices,
            final(self).cell_type == old(self).cell_type,
            final(self).uid == old(self).uid,
    {
        let nv = self.num_vertices();
        let len = V::len();
        let ghost before = self.vertices@;
        assert(before.len() == self.vertices.len());
        let ghost goal = painted_each(before, len as int, offset as int, colors@);
        let mut i: usize = 0;
        while i < nv
            invariant
                i <= nv,
                nv == before.len() / (len as nat),
                nv == colors@.len(),
                i * len <= before.len() <= usize::MAX,
                len == V::spec_len(),
                0 < len,
                offset + 3 <= len,
                before == old(self).vertices@,
                self.vertices@.len() == before.len(),
                goal == painted_each(before, len as int, offset as int, colors@),
                forall|k: int| 0 <= k < i * len ==> #[trigger] self.vertices@[k] == goal[k],
                forall|k: int|
                    i * len <= k < before.len() ==> #[trigger] self.vertices@[k] == before[k],
                self.indices == old(self).indices,
                self.cell_type == old(self).cell_type,
                self.uid == old(self).uid,
            decreases nv - i,
        {
            proof {
                lemma_vertex_in_bounds(i as int, len as int, before.len() as int);
                lemma_vertex_word(i as int, offset as int, len as int);
                lemma_vertex_word(i as int, offset + 1, len as int);
                lemma_vertex_word(i as int, offset + 2, len as int);
                assert((i + 1) * len == i * len + len) by (nonlinear_arith);
                assert(i * len + len <= before.len());
            }
            let at = i * len + offset;
            let color = colors[i];
            self.vertices[at] = color[0];
            self.vertices[at + 1] = color[1];
            self.vertices[at + 2] = color[2];
            proof {
                assert forall|k: int| 0 <= k < (i + 1) * len implies #[trigger] self.vertices@[k]
                    == goal[k] by {
                    if k >= i * len {
                        let j = k - i * len;
                        lemma_vertex_word(i as int, j, len as int);
                    }
                }
            }
            i += 1;
        }
        proof {
            assert forall|k: int| 0 <= k < before.len() implies self.vertices@[k] == goal[k] by {
                if k >= nv * len {
                    vstd::arithmetic::div_mod::lemma_fundamental_div_mod(k, len as int);
                    vstd::arithmetic::div_mod::lemma_mod_bound(k, len as int);
                    let q = k / (len as int);
                    if q < nv {
                        assert(len * q + len <= nv * len) by (nonlinear_arith)
                            requires
                                q + 1 <= nv,
                                0 < len,
                        ;
                    }
                }
            }
            assert(self.vertices@ =~= goal);
        }
    }

    /// Gives the vertices the colours that a colour map assigns to them, for use in line
    /// segments: vertex `i` gets `colors[i]`.
    pub fn set_line_colors_from_colormap(&mut self, colors: &[[u32; 3]])
        requires
            colors@.len() == old(self).vertex_count(),
        ensures
            final(self).vertices@ == painted_each(
                old(self).vertices@,
                V::spec_len() as int,
                V::spec_line_color_offset() as int,
                colors@,
            ),
            final(self).indices == old(self).indices,
            final(self).cell_type == old(self).cell_type,
            final(self).uid == old(self).uid,
    {
        proof {
            V::lemma_layout();
        }
        self.paint_each(V::line_color_offset(), colors);
    }

    /// Gives the vertices the colours that a colour map assigns to them, for use in
    /// triangles: vertex `i` gets `colors[i]`.
    pub fn set_triangle_colors_from_colormap(&mut self, colors: &[[u32; 3]])
        requires
            colors@.len() == old(self).vertex_count(),
        ensures
            final(self).vertices@ == painted_each(
                old(self).vertices@,
                V::spec_len() as int,
                V::spec_triangle_color_offset() as int,
                colors@,
            ),
            final(self).indices == old(self).indices,
            final(self).cell_type == old(self).cell_type,
            final(self).uid == old(self).uid,
    {
        proof {
            V::lemma_layout();
        }
        self.paint_each(V::triangle_color_offset(), colors);
    }

    /// Gives every vertex the colour `color` for use in line segments.
    pub fn set_line_colors(&mut self, color: Color)
        ensures
            final(self).vertices@ == painted(
                old(self).vertices@,
                V::spec_len() as int,
                V::spec_line_color_offset() as int,
                color.rgb(),
            ),
            final(self).indices == old(self).indices,
            final(self).cell_type == old(self).cell_type,
            final(self).uid == old(self).uid,
    {
        proof {
            V::lemma_layout();
        }
        self.paint(V::line_color_offset(), color);
    }

    /// Gives every vertex the colour `color` for use in triangles.
    pub fn set_triangle_colors(&mut self, color: Color)
        ensures
            final(self).vertices@ == painted(
                old(self).vertices@,
                V::spec_len() as int,
                V::spec_triangle_color_offset() as int,
                color.rgb(),
            ),
            final(self).indices == old(self).indices,
            final(self).cell_type == old(self).cell_type,
            final(self).uid == old(self).uid,
    {
        proof {
            V::lemma_layout();
        }
        self.paint(V::triangle_color_offset(), color);
    }
}

} // verus!
