//! Meshes of the spatial viewer: the shapes that can be asked for, and the steps from
//! which their meshes are put together.
use crate::common::{CellType, Color, Scalar, Vec3};
use crate::d3::vertex::{Vertex, VertexDescriptor};
use crate::scene::mesh::{counting, MeshCore, VertexCore};
use vstd::prelude::*;

verus! {

pub type Mesh = MeshCore<Vertex>;

/// Why a mesh could not be extended.
#[derive(Clone, Copy, Debug, PartialEq, Eq, Structural)]
pub enum Error {
    IndexOutOfBounds,
}

impl Error {
    /// The error in words.
    pub fn message(&self) -> (text: String)
        ensures
            text@ == "Indices out of bounds"@,
    {
        "Indices out of bounds".to_owned()
    }
}

/// A line segment from `v1` to `v2`.
#[derive(Clone, Copy, Debug)]
pub struct LineDescriptor {
    pub v1: Vec3,
    pub v2: Vec3,
    pub color: Color,
}

/// A triangle with the corners `v1`, `v2` and `v3`.
#[derive(Clone, Copy, Debug)]
pub struct TriangleDescriptor {
    pub v1: Vec3,
    pub v2: Vec3,
    pub v3: Vec3,
    pub line_color: Color,
    pub tri_color: Color,
    pub cell_type: CellType,
}

/// A rectangle in the plane through `origin` spanned by the two axes, from `x_min` to
/// `x_max` along the first and from `y_min` to `y_max` along the second.
#[derive(Clone, Copy, Debug)]
pub struct PlaneDescriptor {
    pub origin: Vec3,
    pub x_axis: Vec3,
    pub y_axis: Vec3,
    pub x_min: Scalar,
    pub x_max: Scalar,
    pub y_min: Scalar,
    pub y_max: Scalar,
    pub line_color: Color,
    pub tri_color: Color,
    pub cell_type: CellType,
}

/// A box with a corner in `origin` and edges of the given lengths along the three axes.
#[derive(Clone, Copy, Debug)]
pub struct CuboidDescriptor {
    pub origin: Vec3,
    pub x_axis: Vec3,
    pub y_axis: Vec3,
    pub z_axis: Vec3,
    pub lenx: Scalar,
    pub leny: Scalar,
    pub lenz: Scalar,
    pub line_color: Color,
    pub tri_color: Color,
    pub cell_type: CellType,
}

/// A cylinder around `axis`, standing on the circle around `origin`, with or without its
/// two caps.
#[derive(Clone, Copy, Debug)]
pub struct CylinderDescriptor {
    pub origin: Vec3,
    pub axis: Vec3,
    pub radius: Scalar,
    pub height: Scalar,
    pub num_sides: usize,
    pub line_color: Color,
    pub tri_color: Color,
    pub open: bool,
    pub cell_type: CellType,
}

/// A disc around `origin` with the normal `axis`.
#[derive(Clone, Copy, Debug)]
pub struct DiscDescriptor {
    pub origin: Vec3,
    pub axis: Vec3,
    pub radius: Scalar,
    pub num_sides: usize,
    pub line_color: Color,
    pub tri_color: Color,
    pub cell_type: CellType,
}

/// A sphere around `origin` with poles on `axis`, divided `n_lat` times from pole to pole
/// and `n_long` times around.
#[derive(Clone, Copy, Debug)]
pub struct SphereDescriptor {
    pub origin: Vec3,
    pub axis: Vec3,
    pub radius: Scalar,
    pub n_lat: usize,
    pub n_long: usize,
    pub line_color: Color,
    pub tri_color: Color,
    pub cell_type: CellType,
}

/// Three axes through `origin`, reaching `neg_len` backwards and `pos_len` forwards.
#[derive(Clone, Copy, Debug, PartialEq, Eq, Structural)]
pub struct AxesDescriptor {
    pub origin: Vec3,
    pub x_axis: Vec3,
    pub y_axis: Vec3,
    pub z_axis: Vec3,
    pub neg_len: Scalar,
    pub pos_len: Scalar,
}

/// The words of the vertex at `position` with the given normal and colours.
pub open spec fn vertex_words(
    position: Vec3,
    normal: Vec3,
    line_color: Color,
    triangle_color: Color,
) -> Seq<u32> {
    (VertexDescriptor { position, normal, line_color, triangle_color }).words()
}

/// The normal of a vertex that belongs to a line: all zero.
pub open spec fn no_normal() -> Vec3 {
    Vec3 { x: 0, y: 0, z: 0 }
}

/// The mesh `mesh` is made of the vertices that `descs` describe, in their order.
pub open spec fn made_of(mesh: Mesh, descs: Seq<VertexDescriptor>) -> bool {
    &&& mesh.vertices@.len() == descs.len() * 12
    &&& mesh.vertex_count() == descs.len()
    &&& forall|i: int| 0 <= i < descs.len() ==> #[trigger] mesh.vertex_words(i) == descs[i].words()
}

/// A mesh with the words of a mesh that is made of `descs` is made of them too.
pub(crate) proof fn lemma_words_make_mesh(made: Mesh, stored: Mesh, descs: Seq<VertexDescriptor>)
    requires
        made_of(made, descs),
        stored.vertices@ == made.vertices@,
    ensures
        made_of(stored, descs),
{
    assert forall|i: int| 0 <= i < descs.len() implies #[trigger] stored.vertex_words(i)
        == descs[i].words() by {
        assert(stored.vertex_words(i) == made.vertex_words(i));
    }
}

pub(crate) fn pack(descs: &Vec<VertexDescriptor>) -> (vertices: Vec<Vertex>)
    ensures
        vertices@.len() == descs@.len(),
        forall|i: int| 0 <= i < descs@.len() ==> #[trigger] vertices@[i].words() == descs@[i].words(),
{
    let mut vertices: Vec<Vertex> = Vec::new();
    let mut i: usize = 0;
    while i < descs.len()
        invariant
            i <= descs@.len(),
            vertices@.len() == i,
            forall|j: int| 0 <= j < i ==> #[trigger] vertices@[j].words() == descs@[j].words(),
        decreases descs@.len() - i,
    {
        vertices.push(Vertex::new(&descs[i]));
        i += 1;
    }
    vertices
}

/// A mesh whose cells are given corner by corner.
pub(crate) fn from_corners(cell_type: CellType, descs: &Vec<VertexDescriptor>) -> (mesh: Mesh)
    requires
        descs@.len() <= u32::MAX,
    ensures
        mesh.cell_type == cell_type,
        mesh.uid == 0,
        made_of(mesh, descs@),
        mesh.indices@ == counting(descs@.len()),
        cell_type != CellType::Unset && descs@.len() % (cell_type.arity() as nat) == 0
            ==> mesh.valid(),
{
    let vertices = pack(descs);
    let mesh = Mesh::from_cells(cell_type, vertices.as_slice());
    assert forall|i: int| 0 <= i < descs@.len() implies #[trigger] mesh.vertex_words(i)
        == descs@[i].words() by {
        assert(mesh.vertex_words(i) == vertices@[i].words());
    }
    mesh
}

/// A mesh with the vertices that `descs` describe and the indices `indices`.
pub(crate) fn from_shared(cell_type: CellType, descs: &Vec<VertexDescriptor>, indices: Vec<u32>) -> (mesh:
    Mesh)
    ensures
        mesh.cell_type == cell_type,
        mesh.uid == 0,
        made_of(mesh, descs@),
        mesh.indices == indices,
        mesh.valid() <==> cell_type != CellType::Unset && indices@.len() % (
        cell_type.arity() as nat) == 0 && forall|i: int|
            0 <= i < indices@.len() ==> indices@[i] < descs@.len(),
{
    let vertices = pack(descs);
    let mesh = Mesh::from_parts(cell_type, vertices.as_slice(), indices);
    assert forall|i: int| 0 <= i < descs@.len() implies #[trigger] mesh.vertex_words(i)
        == descs@[i].words() by {
        assert(mesh.vertex_words(i) == vertices@[i].words());
    }
    mesh
}

/// The vertex at `position` with the given normal and colours.
pub open spec fn corner(
    position: Vec3,
    normal: Vec3,
    line_color: Color,
    triangle_color: Color,
) -> VertexDescriptor {
    VertexDescriptor { position, normal, line_color, triangle_color }
}

/// The steps from which spatial meshes are put together.
impl Mesh {
    /// The mesh of one line segment. Its vertices carry the colour of the line as both of
    /// their colours.
    pub fn create_line(line_disc: &LineDescriptor) -> (mesh: Self)
        ensures
            mesh.cell_type == CellType::Line,
            mesh.uid == 0,
            mesh.indices@ == seq![0u32, 1u32],
            mesh.vertices@ == vertex_words(
                line_disc.v1,
                no_normal(),
                line_disc.color,
                line_disc.color,
            ) + vertex_words(line_disc.v2, no_normal(), line_disc.color, line_disc.color),
            mesh.valid(),
    {
        let mut out = Mesh::from_num_lines(1);
        let ghost empty = out;
        let v1 = Vertex::new(
            &VertexDescriptor {
                position: line_disc.v1,
                normal: Vec3::zeros(),
                line_color: line_disc.color,
                triangle_color: line_disc.color,
            },
        );
        let v2 = Vertex::new(
            &VertexDescriptor {
                position: line_disc.v2,
                normal: Vec3::zeros(),
                line_color: line_disc.color,
                triangle_color: line_disc.color,
            },
        );
        out.append_vertex(&v1);
        out.append_vertex(&v2);
        let indices: [u32; 2] = [0, 1];
        out.append_indices(indices.as_slice());
        proof {
            assert(out.indices@ =~= seq![0u32, 1u32]);
            assert(out.vertices@ =~= vertex_words(
                line_disc.v1,
                no_normal(),
                line_disc.color,
                line_disc.color,
            ) + vertex_words(line_disc.v2, no_normal(), line_disc.color, line_disc.color));
            Self::lemma_cell_keeps_valid(empty, out);
        }
        out
    }

    /// Appends a vertex.
    pub fn add_vertex(&mut self, v: &Vec3, normal: &Vec3, line_color: &Color, tri_color: &Color)
        ensures
            final(self).vertices@ == old(self).vertices@ + vertex_words(
                *v,
                *normal,
                *line_color,
                *tri_color,
            ),
            final(self).indices == old(self).indices,
            final(self).cell_type == old(self).cell_type,
            final(self).uid == old(self).uid,
    {
        self.append_vertex(
            &Vertex::new(
                &VertexDescriptor {
                    position: *v,
                    normal: *normal,
                    line_color: *line_color,
                    triangle_color: *tri_color,
                },
            ),
        );
    }

    /// Appends a triangle between three vertices that the mesh holds, or fails and
    /// leaves the mesh as it is when an index names no vertex.
    pub fn add_triangle_indices(&mut self, i1: u32, i2: u32, i3: u32) -> (r: Result<(), Error>)
        ensures
            r is Ok <==> i1 < old(self).vertex_count() && i2 < old(self).vertex_count() && i3
                < old(self).vertex_count(),
            r is Ok ==> final(self).indices@ == old(self).indices@ + seq![i1, i2, i3],
            r is Err ==> r == Err::<(), Error>(Error::IndexOutOfBounds) && final(self).indices
                == old(self).indices,
            final(self).vertices == old(self).vertices,
            final(self).cell_type == old(self).cell_type,
            final(self).uid == old(self).uid,
            r is Ok && old(self).valid() && old(self).cell_type == CellType::Triangle
                ==> final(self).valid(),
    {
        let nv = self.num_vertices();
        if (i1 as usize) < nv && (i2 as usize) < nv && (i3 as usize) < nv {
            let tri = [i1, i2, i3];
            self.append_indices(tri.as_slice());
            proof {
                assert(self.indices@ =~= old(self).indices@ + seq![i1, i2, i3]);
                if old(self).valid() && old(self).cell_type == CellType::Triangle {
                    Self::lemma_indices_keep_valid(*old(self), *self);
                }
            }
            Ok(())
        } else {
            Err(Error::IndexOutOfBounds)
        }
    }

    /// Appends a line segment together with its two vertices, which carry no normal.
    pub fn add_line(&mut self, v1: &Vec3, v2: &Vec3, line_color: &Color, tri_color: &Color)
        requires
            old(self).cell_type == CellType::Line,
            old(self).vertex_count() + 1 <= u32::MAX,
        ensures
            final(self).indices@ == old(self).indices@ + seq![
                old(self).vertex_count() as u32,
                (old(self).vertex_count() + 1) as u32,
            ],
            final(self).vertices@ == old(self).vertices@ + vertex_words(
                *v1,
                no_normal(),
                *line_color,
                *tri_color,
            ) + vertex_words(*v2, no_normal(), *line_color, *tri_color),
            final(self).cell_type == old(self).cell_type,
            final(self).uid == old(self).uid,
            old(self).valid() ==> final(self).valid(),
    {
        let nv = self.num_vertices() as u32;
        let indices = [nv, nv + 1];
        self.append_indices(indices.as_slice());
        let zeros = Vec3::zeros();
        self.add_vertex(v1, &zeros, line_color, tri_color);
        self.add_vertex(v2, &zeros, line_color, tri_color);
        proof {
            assert(self.indices@ =~= old(self).indices@ + seq![nv, (nv + 1) as u32]);
            if old(self).valid() {
                Self::lemma_cell_keeps_valid(*old(self), *self);
            }
        }
    }

    /// Appends a triangle together with its three vertices, which all carry `normal`,
    /// the unit normal of the triangle.
    pub fn add_triangle(
        &mut self,
        v1: &Vec3,
        v2: &Vec3,
        v3: &Vec3,
        normal: &Vec3,
        line_color: &Color,
        tri_color: &Color,
    )
        requires
            old(self).cell_type == CellType::Triangle,
            old(self).vertex_count() + 2 <= u32::MAX,
        ensures
            final(self).indices@ == old(self).indices@ + seq![
                old(self).vertex_count() as u32,
                (old(self).vertex_count() + 1) as u32,
                (old(self).vertex_count() + 2) as u32,
            ],
            final(self).vertices@ == old(self).vertices@ + vertex_words(
                *v1,
                *normal,
                *line_color,
                *tri_color,
            ) + vertex_words(*v2, *normal, *line_color, *tri_color) + vertex_words(
                *v3,
                *normal,
                *line_color,
                *tri_color,
            ),
            final(self).cell_type == old(self).cell_type,
            final(self).uid == old(self).uid,
            old(self).valid() ==> final(self).valid(),
    {
        let nv = self.num_vertices() as u32;
        let indices = [nv, nv + 1, nv + 2];
        self.append_indices(indices.as_slice());
        self.add_vertex(v1, normal, line_color, tri_color);
        self.add_vertex(v2, normal, line_color, tri_color);
        self.add_vertex(v3, normal, line_color, tri_color);
        proof {
            assert(self.indices@ =~= old(self).indices@ + seq![
                nv,
                (nv + 1) as u32,
                (nv + 2) as u32,
            ]);
            if old(self).valid() {
                Self::lemma_cell_keeps_valid(*old(self), *self);
            }
        }
    }
}

} // verus!
