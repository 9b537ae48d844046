//! Meshes of the planar viewer: the shapes that can be asked for, and the steps from
//! which their meshes are put together.
use crate::common::{CellType, Color, Scalar, Vec2};
use crate::d2::vertex::{Vertex, VertexDescriptor};
use crate::scene::mesh::{counting, MeshCore, VertexCore};
use vstd::prelude::*;

verus! {

pub type Mesh = MeshCore<Vertex>;

/// Why a mesh could not be extended.
#[derive(Clone, Copy, Debug, PartialEq, Eq, Structural)]
pub enum Error {
    IndexOutOfBounds,
}

impl Error {
    /// The error in words.
    pub fn message(&self) -> (text: String)
        ensures
            text@ == "Indices out of bounds"@,
    {
        "Indices out of bounds".to_owned()
    }
}

/// A pair of axes through `origin`, reaching `neg_len` backwards and `pos_len` forwards.
#[derive(Clone, Copy, Debug, PartialEq, Eq, Structural)]
pub struct AxesDescriptor {
    pub origin: Vec2,
    pub x_axis: Vec2,
    pub y_axis: Vec2,
    pub neg_len: Scalar,
    pub pos_len: Scalar,
}

/// A line segment from `v1` to `v2`.
#[derive(Clone, Copy, Debug)]
pub struct LineDescriptor {
    pub v1: Vec2,
    pub v2: Vec2,
    pub color: Color,
}

/// A parallelogram with a corner in `origin` and sides of length `lenx` and `leny` along
/// the two axes.
#[derive(Clone, Copy, Debug)]
pub struct SquareDescriptor {
    pub origin: Vec2,
    pub x_axis: Vec2,
    pub y_axis: Vec2,
    pub lenx: Scalar,
    pub leny: Scalar,
    pub line_color: Color,
    pub tri_color: Color,
    pub cell_type: CellType,
}

/// A regular polygon of `num_sides` sides inscribed in the circle around `center`.
#[derive(Clone, Copy, Debug)]
pub struct CircleDescriptor {
    pub center: Vec2,
    pub radius: Scalar,
    pub num_sides: u32,
    pub line_color: Color,
    pub tri_color: Color,
    pub cell_type: CellType,
}

/// The words of the vertex at `position` with the given colours.
pub open spec fn vertex_words(position: Vec2, line_color: Color, triangle_color: Color) -> Seq<
    u32,
> {
    (VertexDescriptor { position, line_color, triangle_color }).words()
}

/// The mesh `mesh` is made of the vertices that `descs` describe, in their order.
pub open spec fn made_of(mesh: Mesh, descs: Seq<VertexDescriptor>) -> bool {
    &&& mesh.vertices@.len() == descs.len() * 8
    &&& mesh.vertex_count() == descs.len()
    &&& forall|i: int| 0 <= i < descs.len() ==> #[trigger] mesh.vertex_words(i) == descs[i].words()
}

/// A mesh with the words of a mesh that is made of `descs` is made of them too.
pub(crate) proof fn lemma_words_make_mesh(made: Mesh, stored: Mesh, descs: Seq<VertexDescriptor>)
    requires
        made_of(made, descs),
        stored.vertices@ == made.vertices@,
    ensures
        made_of(stored, descs),
{
    assert forall|i: int| 0 <= i < descs.len() implies #[trigger] stored.vertex_words(i)
        == descs[i].words() by {
        assert(stored.vertex_words(i) == made.vertex_words(i));
    }
}

fn pack(descs: &Vec<VertexDescriptor>) -> (vertices: Vec<Vertex>)
    ensures
        vertices@.len() == descs@.len(),
        forall|i: int| 0 <= i < descs@.len() ==> #[trigger] vertices@[i].words() == descs@[i].words(),
{
    let mut vertices: Vec<Vertex> = Vec::new();
    let mut i: usize = 0;
    while i < descs.len()
        invariant
            i <= descs@.len(),
            vertices@.len() == i,
            forall|j: int| 0 <= j < i ==> #[trigger] vertices@[j].words() == descs@[j].words(),
        decreases descs@.len() - i,
    {
        vertices.push(Vertex::new(&descs[i]));
        i += 1;
    }
    vertices
}

/// A mesh whose cells are given corner by corner.
pub(crate) fn from_corners(cell_type: CellType, descs: &Vec<VertexDescriptor>) -> (mesh: Mesh)
    requires
        descs@.len() <= u32::MAX,
    ensures
        mesh.cell_type == cell_type,
        mesh.uid == 0,
        made_of(mesh, descs@),
        mesh.indices@ == counting(descs@.len()),
        cell_type != CellType::Unset && descs@.len() % (cell_type.arity() as nat) == 0
            ==> mesh.valid(),
{
    let vertices = pack(descs);
    let mesh = Mesh::from_cells(cell_type, vertices.as_slice());
    assert forall|i: int| 0 <= i < descs@.len() implies #[trigger] mesh.vertex_words(i)
        == descs@[i].words() by {
        assert(mesh.vertex_words(i) == vertices@[i].words());
    }
    mesh
}

/// The vertex at `position` with the given colours.
pub open spec fn corner(position: Vec2, line_color: Color, triangle_color: Color) -> VertexDescriptor {
    VertexDescriptor { position, line_color, triangle_color }
}

/// The steps from which planar meshes are put together.
impl Mesh {
    /// The mesh of one line segment.
    pub fn create_line(line: &LineDescriptor) -> (mesh: Self)
        ensures
            mesh.cell_type == CellType::Line,
            mesh.uid == 0,
            mesh.indices@ == seq![0u32, 1u32],
            mesh.vertices@ == vertex_words(line.v1, line.color, Color::Gray) + vertex_words(
                line.v2,
                line.color,
                Color::Gray,
            ),
            mesh.valid(),
    {
        let mut mesh = Mesh::from_num_lines(1);
        let gray = Color::default();
        mesh.add_line(&line.v1, &line.v2, &line.color, &gray);
        assert(mesh.indices@ =~= seq![0u32, 1u32]);
        assert(mesh.vertices@ =~= vertex_words(line.v1, line.color, Color::Gray) + vertex_words(
            line.v2,
            line.color,
            Color::Gray,
        ));
        mesh
    }

    /// Appends a vertex.
    pub fn add_vertex(&mut self, v: &Vec2, lin_color: &Color, tri_color: &Color)
        ensures
            final(self).vertices@ == old(self).vertices@ + vertex_words(*v, *lin_color, *tri_color),
            final(self).indices == old(self).indices,
            final(self).cell_type == old(self).cell_type,
            final(self).uid == old(self).uid,
    {
        self.append_vertex(
            &Vertex::new(
                &VertexDescriptor { position: *v, line_color: *lin_color, triangle_color: *tri_color },
            ),
        );
    }

    /// Appends a triangle between three vertices that the mesh holds, or fails and
    /// leaves the mesh as it is when an index names no vertex.
    pub fn add_triangle_indices(&mut self, i1: u32, i2: u32, i3: u32) -> (r: Result<(), Error>)
        ensures
            r is Ok <==> i1 < old(self).vertex_count() && i2 < old(self).vertex_count() && i3
                < old(self).vertex_count(),
            r is Ok ==> final(self).indices@ == old(self).indices@ + seq![i1, i2, i3],
            r is Err ==> r == Err::<(), Error>(Error::IndexOutOfBounds) && final(self).indices
                == old(self).indices,
            final(self).vertices == old(self).vertices,
            final(self).cell_type == old(self).cell_type,
            final(self).uid == old(self).uid,
            r is Ok && old(self).valid() && old(self).cell_type == CellType::Triangle
                ==> final(self).valid(),
    {
        let nv = self.num_vertices();
        if (i1 as usize) < nv && (i2 as usize) < nv && (i3 as usize) < nv {
            let tri = [i1, i2, i3];
            self.append_indices(tri.as_slice());
            proof {
                assert(self.indices@ =~= old(self).indices@ + seq![i1, i2, i3]);
                if old(self).valid() && old(self).cell_type == CellType::Triangle {
                    Self::lemma_indices_keep_valid(*old(self), *self);
                }
            }
            Ok(())
        } else {
            Err(Error::IndexOutOfBounds)
        }
    }

    /// Appends a line segment between two vertices that the mesh holds, or fails and
    /// leaves the mesh as it is when an index names no vertex.
    pub fn add_line_indices(&mut self, i1: u32, i2: u32) -> (r: Result<(), Error>)
        ensures
            r is Ok <==> i1 < old(self).vertex_count() && i2 < old(self).vertex_count(),
            r is Ok ==> final(self).indices@ == old(self).indices@ + seq![i1, i2],
            r is Err ==> r == Err::<(), Error>(Error::IndexOutOfBounds) && final(self).indices
                == old(self).indices,
            final(self).vertices == old(self).vertices,
            final(self).cell_type == old(self).cell_type,
            final(self).uid == old(self).uid,
            r is Ok && old(self).valid() && old(self).cell_type == CellType::Line
                ==> final(self).valid(),
    {
        let nv = self.num_vertices();
        if (i1 as usize) < nv && (i2 as usize) < nv {
            let line = [i1, i2];
            self.append_indices(line.as_slice());
            proof {
                assert(self.indices@ =~= old(self).indices@ + seq![i1, i2]);
                if old(self).valid() && old(self).cell_type == CellType::Line {
                    Self::lemma_indices_keep_valid(*old(self), *self);
                }
            }
            Ok(())
        } else {
            Err(Error::IndexOutOfBounds)
        }
    }

    /// Appends a line segment together with its two vertices.
    pub fn add_line(&mut self, v1: &Vec2, v2: &Vec2, line_color: &Color, tri_color: &Color)
        requires
            old(self).cell_type == CellType::Line,
            old(self).vertex_count() + 1 <= u32::MAX,
        ensures
            final(self).indices@ == old(self).indices@ + seq![
                old(self).vertex_count() as u32,
                (old(self).vertex_count() + 1) as u32,
            ],
            final(self).vertices@ == old(self).vertices@ + vertex_words(
                *v1,
                *line_color,
                *tri_color,
            ) + vertex_words(*v2, *line_color, *tri_color),
            final(self).cell_type == old(self).cell_type,
            final(self).uid == old(self).uid,
            old(self).valid() ==> final(self).valid(),
    {
        let nv = self.num_vertices() as u32;
        let indices = [nv, nv + 1];
        self.append_indices(indices.as_slice());
        self.add_vertex(v1, line_color, tri_color);
        self.add_vertex(v2, line_color, tri_color);
        proof {
            assert(self.indices@ =~= old(self).indices@ + seq![nv, (nv + 1) as u32]);
            if old(self).valid() {
                Self::lemma_cell_keeps_valid(*old(self), *self);
            }
        }
    }

    /// Appends a triangle together with its three vertices.
    pub fn add_triangle(
        &mut self,
        v1: &Vec2,
        v2: &Vec2,
        v3: &Vec2,
        line_color: &Color,
        tri_color: &Color,
    )
        requires
            old(self).cell_type == CellType::Triangle,
            old(self).vertex_count() + 2 <= u32::MAX,
        ensures
            final(self).indices@ == old(self).indices@ + seq![
                old(self).vertex_count() as u32,
                (old(self).vertex_count() + 1) as u32,
                (old(self).vertex_count() + 2) as u32,
            ],
            final(self).vertices@ == old(self).vertices@ + vertex_words(
                *v1,
                *line_color,
                *tri_color,
            ) + vertex_words(*v2, *line_color, *tri_color) + vertex_words(
                *v3,
                *line_color,
                *tri_color,
            ),
            final(self).cell_type == old(self).cell_type,
            final(self).uid == old(self).uid,
            old(self).valid() ==> final(self).valid(),
    {
        let nv = self.num_vertices() as u32;
        let indices = [nv, nv + 1, nv + 2];
        self.append_indices(indices.as_slice());
        self.add_vertex(v1, line_color, tri_color);
        self.add_vertex(v2, line_color, tri_color);
        self.add_vertex(v3, line_color, tri_color);
        proof {
            assert(self.indices@ =~= old(self).indices@ + seq![
                nv,
                (nv + 1) as u32,
                (nv + 2) as u32,
            ]);
            if old(self).valid() {
                Self::lemma_cell_keeps_valid(*old(self), *self);
            }
        }
    }
}

} // verus!
