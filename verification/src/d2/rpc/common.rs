//! Checks of the messages of the planar viewer's service, and conversions between the
//! messages and the shapes they describe.
use super::d2rpc;
use crate::common::{is_positive, scalar_positive, CellType, Color, Validated, Vec2};
use crate::d2::mesh::{AxesDescriptor, CircleDescriptor, LineDescriptor, Mesh, SquareDescriptor};
use crate::d2::vertex::Vertex;
use crate::scene::mesh::{drawable, is_drawable, VertexCore};
use crate::scene::service::Checked;
use std::marker::PhantomData;
use vstd::prelude::*;

verus! {

impl From<d2rpc::Vec2> for Vec2 {
    fn from(v: d2rpc::Vec2) -> (out: Self) {
        Vec2::new(v.x, v.y)
    }
}

impl vstd::std_specs::convert::FromSpecImpl<d2rpc::Vec2> for Vec2 {
    open spec fn obeys_from_spec() -> bool {
        true
    }

    open spec fn from_spec(v: d2rpc::Vec2) -> Self {
        Vec2 { x: v.x, y: v.y }
    }
}

impl From<Vec2> for d2rpc::Vec2 {
    fn from(v: Vec2) -> (out: Self) {
        d2rpc::Vec2 { x: v.x, y: v.y }
    }
}

impl vstd::std_specs::convert::FromSpecImpl<Vec2> for d2rpc::Vec2 {
    open spec fn obeys_from_spec() -> bool {
        true
    }

    open spec fn from_spec(v: Vec2) -> Self {
        d2rpc::Vec2 { x: v.x, y: v.y }
    }
}

impl From<d2rpc::Color> for Color {
    fn from(c: d2rpc::Color) -> (out: Self) {
        Color::Other((c.r, c.g, c.b))
    }
}

impl vstd::std_specs::convert::FromSpecImpl<d2rpc::Color> for Color {
    open spec fn obeys_from_spec() -> bool {
        true
    }

    open spec fn from_spec(c: d2rpc::Color) -> Self {
        Color::Other((c.r, c.g, c.b))
    }
}

impl From<Color> for d2rpc::Color {
    fn from(c: Color) -> (out: Self) {
        let rgp = c.to_rgb();
        d2rpc::Color { r: rgp[0], g: rgp[1], b: rgp[2] }
    }
}

impl vstd::std_specs::convert::FromSpecImpl<Color> for d2rpc::Color {
    open spec fn obeys_from_spec() -> bool {
        true
    }

    open spec fn from_spec(c: Color) -> Self {
        d2rpc::Color { r: c.rgb()[0], g: c.rgb()[1], b: c.rgb()[2] }
    }
}

impl d2rpc::AxesDescriptor {
    /// No part is missing, and both lengths are positive.
    pub open spec fn complete(&self) -> bool {
        &&& self.origin is Some
        &&& self.x_axis is Some
        &&& self.y_axis is Some
        &&& scalar_positive(self.pos_len)
        &&& scalar_positive(self.neg_len)
    }

    /// The axes that the message describes.
    pub open spec fn shape(&self) -> AxesDescriptor {
        AxesDescriptor {
            origin: Vec2 { x: self.origin->0.x, y: self.origin->0.y },
            x_axis: Vec2 { x: self.x_axis->0.x, y: self.x_axis->0.y },
            y_axis: Vec2 { x: self.y_axis->0.x, y: self.y_axis->0.y },
            neg_len: self.neg_len,
            pos_len: self.pos_len,
        }
    }
}

impl Validated for d2rpc::AddAxesRequest {
    open spec fn valid(&self) -> bool {
        self.axes_descriptor matches Some(d) && d.complete()
    }

    fn is_valid(&self) -> (ok: bool) {
        match &self.axes_descriptor {
            Some(axes_descriptor) => {
                axes_descriptor.origin.is_some() && axes_descriptor.x_axis.is_some()
                    && axes_descriptor.y_axis.is_some() && is_positive(axes_descriptor.pos_len)
                    && is_positive(axes_descriptor.neg_len)
            },
            None => false,
        }
    }
}

impl Checked for d2rpc::AddAxesRequest {
    open spec fn reason() -> Seq<char> {
        "Invalid axes descriptor"@
    }

    fn refusal() -> (text: &'static str) {
        "Invalid axes descriptor"
    }
}

impl AxesDescriptor {
    /// The axes that a complete message describes.
    pub fn from(axes_desc: d2rpc::AxesDescriptor) -> (out: Self)
        requires
            axes_desc.origin is Some,
            axes_desc.x_axis is Some,
            axes_desc.y_axis is Some,
        ensures
            out == axes_desc.shape(),
    {
        AxesDescriptor {
            origin: Vec2::from(axes_desc.origin.unwrap()),
            x_axis: Vec2::from(axes_desc.x_axis.unwrap()),
            y_axis: Vec2::from(axes_desc.y_axis.unwrap()),
            pos_len: axes_desc.pos_len,
            neg_len: axes_desc.neg_len,
        }
    }
}

impl From<AxesDescriptor> for d2rpc::AxesDescriptor {
    fn from(axes_desc: AxesDescriptor) -> (out: Self) {
        d2rpc::AxesDescriptor {
            origin: Some(d2rpc::Vec2::from(axes_desc.origin)),
            x_axis: Some(d2rpc::Vec2::from(axes_desc.x_axis)),
            y_axis: Some(d2rpc::Vec2::from(axes_desc.y_axis)),
            pos_len: axes_desc.pos_len,
            neg_len: axes_desc.neg_len,
        }
    }
}

impl vstd::std_specs::convert::FromSpecImpl<AxesDescriptor> for d2rpc::AxesDescriptor {
    open spec fn obeys_from_spec() -> bool {
        true
    }

    open spec fn from_spec(axes_desc: AxesDescriptor) -> Self {
        d2rpc::AxesDescriptor {
            origin: Some(d2rpc::Vec2 { x: axes_desc.origin.x, y: axes_desc.origin.y }),
            x_axis: Some(d2rpc::Vec2 { x: axes_desc.x_axis.x, y: axes_desc.x_axis.y }),
            y_axis: Some(d2rpc::Vec2 { x: axes_desc.y_axis.x, y: axes_desc.y_axis.y }),
            pos_len: axes_desc.pos_len,
            neg_len: axes_desc.neg_len,
        }
    }
}

impl d2rpc::LineDescriptor {
    /// No part is missing.
    pub open spec fn complete(&self) -> bool {
        &&& self.v1 is Some
        &&& self.v2 is Some
        &&& self.color is Some
    }

    /// The line that the message describes.
    pub open spec fn shape(&self) -> LineDescriptor {
        LineDescriptor {
            v1: Vec2 { x: self.v1->0.x, y: self.v1->0.y },
            v2: Vec2 { x: self.v2->0.x, y: self.v2->0.y },
            color: Color::Other((self.color->0.r, self.color->0.g, self.color->0.b)),
        }
    }
}

impl Validated for d2rpc::AddLineRequest {
    open spec fn valid(&self) -> bool {
        self.line_descriptor matches Some(d) && d.complete()
    }

    fn is_valid(&self) -> (ok: bool) {
        match &self.line_descriptor {
            Some(line_descriptor) => {
                line_descriptor.v1.is_some() && line_descriptor.v2.is_some()
                    && line_descriptor.color.is_some()
            },
            None => false,
        }
    }
}

impl Checked for d2rpc::AddLineRequest {
    open spec fn reason() -> Seq<char> {
        "Invalid line descriptor"@
    }

    fn refusal() -> (text: &'static str) {
        "Invalid line descriptor"
    }
}

impl LineDescriptor {
    /// The line that a complete message describes.
    pub fn from(line_desc: d2rpc::LineDescriptor) -> (out: Self)
        requires
            line_desc.complete(),
        ensures
            out == line_desc.shape(),
    {
        LineDescriptor {
            v1: Vec2::from(line_desc.v1.unwrap()),
            v2: Vec2::from(line_desc.v2.unwrap()),
            color: Color::from(line_desc.color.unwrap()),
        }
    }
}

impl From<LineDescriptor> for d2rpc::LineDescriptor {
    fn from(line_desc: LineDescriptor) -> (out: Self) {
        d2rpc::LineDescriptor {
            v1: Some(d2rpc::Vec2::from(line_desc.v1)),
            v2: Some(d2rpc::Vec2::from(line_desc.v2)),
            color: Some(d2rpc::Color::from(line_desc.color)),
        }
    }
}

impl vstd::std_specs::convert::FromSpecImpl<LineDescriptor> for d2rpc::LineDescriptor {
    open spec fn obeys_from_spec() -> bool {
        true
    }

    open spec fn from_spec(line_desc: LineDescriptor) -> Self {
        d2rpc::LineDescriptor {
            v1: Some(d2rpc::Vec2 { x: line_desc.v1.x, y: line_desc.v1.y }),
            v2: Some(d2rpc::Vec2 { x: line_desc.v2.x, y: line_desc.v2.y }),
            color: Some(
                d2rpc::Color {
                    r: line_desc.color.rgb()[0],
                    g: line_desc.color.rgb()[1],
                    b: line_desc.color.rgb()[2],
                },
            ),
        }
    }
}

impl d2rpc::SquareDescriptor {
    /// No part is missing, and both lengths are positive.
    /// The cells asked for are lines or triangles.
    pub open spec fn complete(&self) -> bool {
        &&& self.origin is Some
        &&& self.x_axis is Some
        &&& self.y_axis is Some
        &&& scalar_positive(self.lenx)
        &&& scalar_positive(self.leny)
        &&& self.line_color is Some
        &&& self.tri_color is Some
        &&& CellType::of_code(self.cell_type as int) != CellType::Unset
    }

    /// The square that the message describes.
    pub open spec fn shape(&self) -> SquareDescriptor {
        SquareDescriptor {
            origin: Vec2 { x: self.origin->0.x, y: self.origin->0.y },
            x_axis: Vec2 { x: self.x_axis->0.x, y: self.x_axis->0.y },
            y_axis: Vec2 { x: self.y_axis->0.x, y: self.y_axis->0.y },
            lenx: self.lenx,
            leny: self.leny,
            line_color: Color::Other(
                (self.line_color->0.r, self.line_color->0.g, self.line_color->0.b),
            ),
            tri_color: Color::Other((self.tri_color->0.r, self.tri_color->0.g, self.tri_color->0.b)),
            cell_type: CellType::of_code(self.cell_type as int),
        }
    }
}

impl Validated for d2rpc::AddSquareRequest {
    open spec fn valid(&self) -> bool {
        self.square_descriptor matches Some(d) && d.complete()
    }

    fn is_valid(&self) -> (ok: bool) {
        match &self.square_descriptor {
            Some(square_descriptor) => {
                square_descriptor.origin.is_some() && square_descriptor.x_axis.is_some()
                    && square_descriptor.y_axis.is_some() && is_positive(square_descriptor.lenx)
                    && is_positive(square_descriptor.leny)
                    && square_descriptor.line_color.is_some()
                    && square_descriptor.tri_color.is_some()
                    && (square_descriptor.cell_type == 1 || square_descriptor.cell_type == 2)
            },
            None => false,
        }
    }
}

impl Checked for d2rpc::AddSquareRequest {
    open spec fn reason() -> Seq<char> {
        "Invalid square descriptor"@
    }

    fn refusal() -> (text: &'static str) {
        "Invalid square descriptor"
    }
}

impl SquareDescriptor {
    /// The square that a complete message describes.
    pub fn from(square_desc: d2rpc::SquareDescriptor) -> (out: Self)
        requires
            square_desc.origin is Some,
            square_desc.x_axis is Some,
            square_desc.y_axis is Some,
            square_desc.line_color is Some,
            square_desc.tri_color is Some,
        ensures
            out == square_desc.shape(),
    {
        SquareDescriptor {
            origin: Vec2::from(square_desc.origin.unwrap()),
            x_axis: Vec2::from(square_desc.x_axis.unwrap()),
            y_axis: Vec2::from(square_desc.y_axis.unwrap()),
            lenx: square_desc.lenx,
            leny: square_desc.leny,
            line_color: Color::from(square_desc.line_color.unwrap()),
            tri_color: Color::from(square_desc.tri_color.unwrap()),
            cell_type: CellType::from(square_desc.cell_type),
        }
    }
}

impl From<SquareDescriptor> for d2rpc::SquareDescriptor {
    fn from(square_desc: SquareDescriptor) -> (out: Self) {
        d2rpc::SquareDescriptor {
            origin: Some(d2rpc::Vec2::from(square_desc.origin)),
            x_axis: Some(d2rpc::Vec2::from(square_desc.x_axis)),
            y_axis: Some(d2rpc::Vec2::from(square_desc.y_axis)),
            lenx: square_desc.lenx,
            leny: square_desc.leny,
            line_color: Some(d2rpc::Color::from(square_desc.line_color)),
            tri_color: Some(d2rpc::Color::from(square_desc.tri_color)),
            cell_type: i32::from(square_desc.cell_type),
        }
    }
}

impl vstd::std_specs::convert::FromSpecImpl<SquareDescriptor> for d2rpc::SquareDescriptor {
    open spec fn obeys_from_spec() -> bool {
        true
    }

    open spec fn from_spec(square_desc: SquareDescriptor) -> Self {
        d2rpc::SquareDescriptor {
            origin: Some(d2rpc::Vec2 { x: square_desc.origin.x, y: square_desc.origin.y }),
            x_axis: Some(d2rpc::Vec2 { x: square_desc.x_axis.x, y: square_desc.x_axis.y }),
            y_axis: Some(d2rpc::Vec2 { x: square_desc.y_axis.x, y: square_desc.y_axis.y }),
            lenx: square_desc.lenx,
            leny: square_desc.leny,
            line_color: Some(
                d2rpc::Color {
                    r: square_desc.line_color.rgb()[0],
                    g: square_desc.line_color.rgb()[1],
                    b: square_desc.line_color.rgb()[2],
                },
            ),
            tri_color: Some(
                d2rpc::Color {
                    r: square_desc.tri_color.rgb()[0],
                    g: square_desc.tri_color.rgb()[1],
                    b: square_desc.tri_color.rgb()[2],
                },
            ),
            cell_type: square_desc.cell_type.code() as i32,
        }
    }
}

impl d2rpc::CircleDescriptor {
    /// No part is missing, the radius is positive, and there is at least one side.
    /// The cells asked for are lines or triangles.
    pub open spec fn complete(&self) -> bool {
        &&& self.center is Some
        &&& scalar_positive(self.radius)
        &&& self.num_sides > 0
        &&& self.line_color is Some
        &&& self.tri_color is Some
        &&& CellType::of_code(self.cell_type as int) != CellType::Unset
    }

    /// The circle that the message describes.
    pub open spec fn shape(&self) -> CircleDescriptor {
        CircleDescriptor {
            center: Vec2 { x: self.center->0.x, y: self.center->0.y },
            radius: self.radius,
            num_sides: self.num_sides,
            line_color: Color::Other(
                (self.line_color->0.r, self.line_color->0.g, self.line_color->0.b),
            ),
            tri_color: Color::Other((self.tri_color->0.r, self.tri_color->0.g, self.tri_color->0.b)),
            cell_type: CellType::of_code(self.cell_type as int),
        }
    }
}

impl Validated for d2rpc::AddCircleRequest {
    open spec fn valid(&self) -> bool {
        self.circle_descriptor matches Some(d) && d.complete()
    }

    fn is_valid(&self) -> (ok: bool) {
        match &self.circle_descriptor {
            Some(circle_descriptor) => {
                circle_descriptor.center.is_some() && is_positive(circle_descriptor.radius)
                    && circle_descriptor.num_sides > 0 && circle_descriptor.line_color.is_some()
                    && circle_descriptor.tri_color.is_some()
                    && (circle_descriptor.cell_type == 1 || circle_descriptor.cell_type == 2)
            },
            None => false,
        }
    }
}

impl Checked for d2rpc::AddCircleRequest {
    open spec fn reason() -> Seq<char> {
        "Invalid circle descriptor"@
    }

    fn refusal() -> (text: &'static str) {
        "Invalid circle descriptor"
    }
}

impl CircleDescriptor {
    /// The circle that a complete message describes.
    pub fn from(circle_desc: d2rpc::CircleDescriptor) -> (out: Self)
        requires
            circle_desc.center is Some,
            circle_desc.line_color is Some,
            circle_desc.tri_color is Some,
        ensures
            out == circle_desc.shape(),
    {
        CircleDescriptor {
            center: Vec2::from(circle_desc.center.unwrap()),
            radius: circle_desc.radius,
            num_sides: circle_desc.num_sides,
            line_color: Color::from(circle_desc.line_color.unwrap()),
            tri_color: Color::from(circle_desc.tri_color.unwrap()),
            cell_type: CellType::from(circle_desc.cell_type),
        }
    }
}

impl From<CircleDescriptor> for d2rpc::CircleDescriptor {
    fn from(circle_desc: CircleDescriptor) -> (out: Self) {
        d2rpc::CircleDescriptor {
            center: Some(d2rpc::Vec2::from(circle_desc.center)),
            radius: circle_desc.radius,
            num_sides: circle_desc.num_sides,
            line_color: Some(d2rpc::Color::from(circle_desc.line_color)),
            tri_color: Some(d2rpc::Color::from(circle_desc.tri_color)),
            cell_type: i32::from(circle_desc.cell_type),
        }
    }
}

impl vstd::std_specs::convert::FromSpecImpl<CircleDescriptor> for d2rpc::CircleDescriptor {
    open spec fn obeys_from_spec() -> bool {
        true
    }

    open spec fn from_spec(circle_desc: CircleDescriptor) -> Self {
        d2rpc::CircleDescriptor {
            center: Some(d2rpc::Vec2 { x: circle_desc.center.x, y: circle_desc.center.y }),
            radius: circle_desc.radius,
            num_sides: circle_desc.num_sides,
            line_color: Some(
                d2rpc::Color {
                    r: circle_desc.line_color.rgb()[0],
                    g: circle_desc.line_color.rgb()[1],
                    b: circle_desc.line_color.rgb()[2],
                },
            ),
            tri_color: Some(
                d2rpc::Color {
                    r: circle_desc.tri_color.rgb()[0],
                    g: circle_desc.tri_color.rgb()[1],
                    b: circle_desc.tri_color.rgb()[2],
                },
            ),
            cell_type: circle_desc.cell_type.code() as i32,
        }
    }
}

impl d2rpc::MeshDescriptor {
    /// The words and indices of the message can be drawn: the cells are lines or triangles,
    /// the words make whole vertices, the indices make whole cells, and every index names
    /// a vertex of the message.
    pub open spec fn drawable(&self) -> bool {
        drawable(
            CellType::of_code(self.cell_type as int),
            self.vertices@,
            self.indices@,
            Vertex::spec_len(),
        )
    }
}

impl Validated for d2rpc::AddMeshRequest {
    open spec fn valid(&self) -> bool {
        self.mesh_descriptor matches Some(d) && d.vertices@.len() > 0 && d.indices@.len() > 0
            && d.drawable()
    }

    fn is_valid(&self) -> (ok: bool) {
        proof {
            Vertex::lemma_layout();
        }
        match &self.mesh_descriptor {
            Some(md) => {
                md.vertices.len() > 0 && md.indices.len() > 0 && is_drawable(
                    CellType::from(md.cell_type),
                    md.vertices.as_slice(),
                    md.indices.as_slice(),
                    Vertex::len(),
                )
            },
            None => false,
        }
    }
}

impl Checked for d2rpc::AddMeshRequest {
    open spec fn reason() -> Seq<char> {
        "Invalid mesh descriptor"@
    }

    fn refusal() -> (text: &'static str) {
        "Invalid mesh descriptor"
    }
}

impl Mesh {
    /// The mesh that a message describes, not yet given an identifier.
    pub fn from(mesh_desc: d2rpc::MeshDescriptor) -> (mesh: Self)
        ensures
            mesh.vertices == mesh_desc.vertices,
            mesh.indices == mesh_desc.indices,
            mesh.cell_type == CellType::of_code(mesh_desc.cell_type as int),
            mesh.uid == 0,
    {
        Mesh {
            vertices: mesh_desc.vertices,
            indices: mesh_desc.indices,
            cell_type: CellType::from(mesh_desc.cell_type),
            uid: 0,
            phant: PhantomData,
        }
    }
}

impl d2rpc::MeshDescriptor {
    /// The message that describes `mesh`.
    pub fn from(mesh: Mesh) -> (mesh_desc: Self)
        ensures
            mesh_desc.vertices == mesh.vertices,
            mesh_desc.indices == mesh.indices,
            mesh_desc.cell_type == mesh.cell_type.code(),
    {
        d2rpc::MeshDescriptor {
            vertices: mesh.vertices,
            indices: mesh.indices,
            cell_type: i32::from(mesh.cell_type),
        }
    }
}

} // verus!
