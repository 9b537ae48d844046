//! The vertex of the planar viewer.
use crate::common::{Color, Vec2};
use crate::scene::mesh::{overwritten, VertexCore, VertexViewCore};
use vstd::prelude::*;

verus! {

/// What a vertex is made from.
#[derive(Clone, Copy, Debug)]
pub struct VertexDescriptor {
    pub position: Vec2,
    pub line_color: Color,
    pub triangle_color: Color,
}

impl VertexDescriptor {
    pub fn new(position: Vec2, line_color: Color, triangle_color: Color) -> (desc: Self)
        ensures
            desc == (VertexDescriptor { position, line_color, triangle_color }),
    {
        VertexDescriptor { position, line_color, triangle_color }
    }

    /// The eight words of the vertex: two of position, three of line colour, three of
    /// triangle colour.
    pub open spec fn words(self) -> Seq<u32> {
        self.position.words() + self.line_color.rgb() + self.triangle_color.rgb()
    }
}

/// A packed vertex of eight words: position (x, y), line colour (r, g, b), triangle
/// colour (r, g, b).
#[derive(Clone, Copy, Debug)]
pub struct Vertex {
    pub data: [u32; 8],
}

impl Vertex {
    pub fn new(vert_desc: &VertexDescriptor) -> (v: Vertex)
        ensures
            v.data@ == vert_desc.words(),
            v.words() == vert_desc.words(),
    {
        let lc = vert_desc.line_color.to_rgb();
        let tc = vert_desc.triangle_color.to_rgb();
        let data: [u32; 8] = [
            vert_desc.position.x,
            vert_desc.position.y,
            lc[0],
            lc[1],
            lc[2],
            tc[0],
            tc[1],
            tc[2],
        ];
        assert(data@ =~= vert_desc.words());
        Vertex { data }
    }
}

impl VertexCore for Vertex {
    open spec fn spec_len() -> nat {
        8
    }

    open spec fn spec_position_offset() -> nat {
        0
    }

    open spec fn spec_line_color_offset() -> nat {
        2
    }

    open spec fn spec_triangle_color_offset() -> nat {
        5
    }

    open spec fn spec_dim() -> nat {
        2
    }

    open spec fn words(&self) -> Seq<u32> {
        self.data@
    }

    proof fn lemma_layout() {
    }

    fn to_slice(&self) -> (s: &[u32]) {
        self.data.as_slice()
    }

    fn position_offset() -> (n: usize) {
        0
    }

    fn line_color_offset() -> (n: usize) {
        2
    }

    fn triangle_color_offset() -> (n: usize) {
        5
    }

    fn len() -> (n: usize) {
        8
    }

    fn dim() -> (n: usize) {
        2
    }
}

/// A view of the words of one vertex inside a mesh.
pub struct VertexView<'a> {
    pub vertex_data: &'a mut [u32],
}

impl<'a> VertexViewCore<'a> for VertexView<'a> {
    type Vec = Vec2;

    type Vertex = Vertex;

    open spec fn words(&self) -> Seq<u32> {
        self.vertex_data@
    }

    open spec fn coordinates(pos: &Vec2) -> Seq<u32> {
        pos.words()
    }

    proof fn lemma_coordinates(pos: &Vec2) {
    }

    fn new(vert_slice: &'a mut [u32]) -> (view: Self)
        ensures
            final(view.vertex_data)@ == final(vert_slice)@,
    {
        VertexView { vertex_data: vert_slice }
    }

    fn set_position(&mut self, pos: &Vec2) {
        self.vertex_data[0] = pos.x;
        self.vertex_data[1] = pos.y;
        assert(self.vertex_data@ =~= overwritten(old(self).vertex_data@, 0, pos.words()));
    }

    fn get_position(&self) -> (pos: Vec2) {
        let pos = Vec2::new(self.vertex_data[0], self.vertex_data[1]);
        assert(pos.words() =~= self.vertex_data@.subrange(0, 2));
        pos
    }

    fn set_line_color(&mut self, color: &[u32; 3]) {
        self.vertex_data[2] = color[0];
        self.vertex_data[3] = color[1];
        self.vertex_data[4] = color[2];
        assert(self.vertex_data@ =~= overwritten(old(self).vertex_data@, 2, color@));
    }

    fn get_line_color(&self) -> (color: [u32; 3]) {
        let color = [self.vertex_data[2], self.vertex_data[3], self.vertex_data[4]];
        assert(color@ =~= self.vertex_data@.subrange(2, 5));
        color
    }

    fn set_triangle_color(&mut self, color: &[u32; 3]) {
        self.vertex_data[5] = color[0];
        self.vertex_data[6] = color[1];
        self.vertex_data[7] = color[2];
        assert(self.vertex_data@ =~= overwritten(old(self).vertex_data@, 5, color@));
    }

    fn get_triangle_color(&self) -> (color: [u32; 3]) {
        let color = [self.vertex_data[5], self.vertex_data[6], self.vertex_data[7]];
        assert(color@ =~= self.vertex_data@.subrange(5, 8));
        color
    }
}

} // verus!
