//! The vertex of the spatial viewer.
use crate::common::{Color, Vec3};
use crate::scene::mesh::{overwritten, VertexCore, VertexViewCore};
use vstd::prelude::*;

verus! {

/// What a vertex is made from.
#[derive(Clone, Copy, Debug)]
pub struct VertexDescriptor {
    pub position: Vec3,
    pub normal: Vec3,
    pub line_color: Color,
    pub triangle_color: Color,
}

impl VertexDescriptor {
    pub fn new(position: Vec3, normal: Vec3, line_color: Color, triangle_color: Color) -> (desc:
        Self)
        ensures
            desc == (VertexDescriptor { position, normal, line_color, triangle_color }),
    {
        VertexDescriptor { position, normal, line_color, triangle_color }
    }

    /// The twelve words of the vertex: three of position, three of normal, three of line
    /// colour, three of triangle colour.
    pub open spec fn words(self) -> Seq<u32> {
        self.position.words() + self.normal.words() + self.line_color.rgb()
            + self.triangle_color.rgb()
    }
}

/// A packed vertex of twelve words: position (x, y, z), normal (x, y, z), line colour
/// (r, g, b), triangle colour (r, g, b).
#[derive(Clone, Copy, Debug)]
pub struct Vertex {
    pub data: [u32; 12],
}

impl Vertex {
    pub fn new(vert_disc: &VertexDescriptor) -> (v: Vertex)
        ensures
            v.data@ == vert_disc.words(),
            v.words() == vert_disc.words(),
    {
        let lc = vert_disc.line_color.to_rgb();
        let tc = vert_disc.triangle_color.to_rgb();
        let data: [u32; 12] = [
            vert_disc.position.x,
            vert_disc.position.y,
            vert_disc.position.z,
            vert_disc.normal.x,
            vert_disc.normal.y,
            vert_disc.normal.z,
            lc[0],
            lc[1],
            lc[2],
            tc[0],
            tc[1],
            tc[2],
        ];
        assert(data@ =~= vert_disc.words());
        Vertex { data }
    }

    /// Index of the first word of the normal.
    pub fn normal_offset() -> (n: usize)
        ensures
            n == 3,
    {
        3
    }
}

impl VertexCore for Vertex {
    open spec fn spec_len() -> nat {
        12
    }

    open spec fn spec_position_offset() -> nat {
        0
    }

    open spec fn spec_line_color_offset() -> nat {
        6
    }

    open spec fn spec_triangle_color_offset() -> nat {
        9
    }

    open spec fn spec_dim() -> nat {
        3
    }

    open spec fn words(&self) -> Seq<u32> {
        self.data@
    }

    proof fn lemma_layout() {
    }

    fn to_slice(&self) -> (s: &[u32]) {
        self.data.as_slice()
    }

    fn position_offset() -> (n: usize) {
        0
    }

    fn line_color_offset() -> (n: usize) {
        6
    }

    fn triangle_color_offset() -> (n: usize) {
        9
    }

    fn len() -> (n: usize) {
        12
    }

    fn dim() -> (n: usize) {
        3
    }
}

/// A view of the words of one vertex inside a mesh.
pub struct VertexView<'a> {
    pub vertex_data: &'a mut [u32],
}

impl<'a> VertexView<'a> {
    /// Writes the normal of the vertex.
    pub fn set_normal(&mut self, norm: &Vec3)
        requires
            old(self).words().len() == 12,
        ensures
            final(self).words() == overwritten(old(self).words(), 3, norm.words()),
    {
        self.vertex_data[3] = norm.x;
        self.vertex_data[4] = norm.y;
        self.vertex_data[5] = norm.z;
        assert(self.vertex_data@ =~= overwritten(old(self).vertex_data@, 3, norm.words()));
    }

    /// The normal of the vertex.
    pub fn get_normal(&self) -> (norm: Vec3)
        requires
            self.words().len() == 12,
        ensures
            norm.words() == self.words().subrange(3, 6),
    {
        let norm = Vec3::new(self.vertex_data[3], self.vertex_data[4], self.vertex_data[5]);
        assert(norm.words() =~= self.vertex_data@.subrange(3, 6));
        norm
    }
}

impl<'a> VertexViewCore<'a> for VertexView<'a> {
    type Vec = Vec3;

    type Vertex = Vertex;

    open spec fn words(&self) -> Seq<u32> {
        self.vertex_data@
    }

    open spec fn coordinates(pos: &Vec3) -> Seq<u32> {
        pos.words()
    }

    proof fn lemma_coordinates(pos: &Vec3) {
    }

    fn new(vert_slice: &'a mut [u32]) -> (view: Self)
        ensures
            final(view.vertex_data)@ == final(vert_slice)@,
    {
        VertexView { vertex_data: vert_slice }
    }

    fn set_position(&mut self, pos: &Vec3) {
        self.vertex_data[0] = pos.x;
        self.vertex_data[1] = pos.y;
        self.vertex_data[2] = pos.z;
        assert(self.vertex_data@ =~= overwritten(old(self).vertex_data@, 0, pos.words()));
    }

    fn get_position(&self) -> (pos: Vec3) {
        let pos = Vec3::new(self.vertex_data[0], self.vertex_data[1], self.vertex_data[2]);
        assert(pos.words() =~= self.vertex_data@.subrange(0, 3));
        pos
    }

    fn set_line_color(&mut self, color: &[u32; 3]) {
        self.vertex_data[6] = color[0];
        self.vertex_data[7] = color[1];
        self.vertex_data[8] = color[2];
        assert(self.vertex_data@ =~= overwritten(old(self).vertex_data@, 6, color@));
    }

    fn get_line_color(&self) -> (color: [u32; 3]) {
        let color = [self.vertex_data[6], self.vertex_data[7], self.vertex_data[8]];
        assert(color@ =~= self.vertex_data@.subrange(6, 9));
        color
    }

    fn set_triangle_color(&mut self, color: &[u32; 3]) {
        self.vertex_data[9] = color[0];
        self.vertex_data[10] = color[1];
        self.vertex_data[11] = color[2];
        assert(self.vertex_data@ =~= overwritten(old(self).vertex_data@, 9, color@));
    }

    fn get_triangle_color(&self) -> (color: [u32; 3]) {
        let color = [self.vertex_data[9], self.vertex_data[10], self.vertex_data[11]];
        assert(color@ =~= self.vertex_data@.subrange(9, 12));
        color
    }
}

} // verus!
