//! Checks of the messages of the spatial viewer's service, and conversions between the
//! messages and the shapes they describe.
use super::d3rpc;
use crate::common::{
    is_positive, less_than, scalar_lt, scalar_positive, CellType, Color, Validated, Vec3,
};
use crate::d3::mesh::{
    AxesDescriptor, CuboidDescriptor, CylinderDescriptor, DiscDescriptor, LineDescriptor, Mesh,
    PlaneDescriptor, SphereDescriptor, TriangleDescriptor,
};
use crate::d3::vertex::Vertex;
use crate::scene::mesh::{drawable, is_drawable, VertexCore};
use crate::scene::service::Checked;
use std::marker::PhantomData;
use vstd::prelude::*;

verus! {

impl From<d3rpc::Vec3> for Vec3 {
    fn from(v: d3rpc::Vec3) -> (out: Self) {
        Vec3::new(v.x, v.y, v.z)
    }
}

impl vstd::std_specs::convert::FromSpecImpl<d3rpc::Vec3> for Vec3 {
    open spec fn obeys_from_spec() -> bool {
        true
    }

    open spec fn from_spec(v: d3rpc::Vec3) -> Self {
        Vec3 { x: v.x, y: v.y, z: v.z }
    }
}

impl From<Vec3> for d3rpc::Vec3 {
    fn from(v: Vec3) -> (out: Self) {
        d3rpc::Vec3 { x: v.x, y: v.y, z: v.z }
    }
}

impl vstd::std_specs::convert::FromSpecImpl<Vec3> for d3rpc::Vec3 {
    open spec fn obeys_from_spec() -> bool {
        true
    }

    open spec fn from_spec(v: Vec3) -> Self {
        d3rpc::Vec3 { x: v.x, y: v.y, z: v.z }
    }
}

impl From<d3rpc::Color> for Color {
    fn from(c: d3rpc::Color) -> (out: Self) {
        Color::Other((c.r, c.g, c.b))
    }
}

impl vstd::std_specs::convert::FromSpecImpl<d3rpc::Color> for Color {
    open spec fn obeys_from_spec() -> bool {
        true
    }

    open spec fn from_spec(c: d3rpc::Color) -> Self {
        Color::Other((c.r, c.g, c.b))
    }
}

impl From<Color> for d3rpc::Color {
    fn from(c: Color) -> (out: Self) {
        let rgp = c.to_rgb();
        d3rpc::Color { r: rgp[0], g: rgp[1], b: rgp[2] }
    }
}

impl vstd::std_specs::convert::FromSpecImpl<Color> for d3rpc::Color {
    open spec fn obeys_from_spec() -> bool {
        true
    }

    open spec fn from_spec(c: Color) -> Self {
        d3rpc::Color { r: c.rgb()[0], g: c.rgb()[1], b: c.rgb()[2] }
    }
}

/// The point or direction that a message holds.
pub open spec fn vec_of(v: d3rpc::Vec3) -> Vec3 {
    Vec3 { x: v.x, y: v.y, z: v.z }
}

/// The message that holds a point or direction.
pub open spec fn vec_msg(v: Vec3) -> d3rpc::Vec3 {
    d3rpc::Vec3 { x: v.x, y: v.y, z: v.z }
}

/// The colour that a message holds.
pub open spec fn color_of(c: d3rpc::Color) -> Color {
    Color::Other((c.r, c.g, c.b))
}

/// The message that holds a colour: its red, green and blue.
pub open spec fn color_msg(c: Color) -> d3rpc::Color {
    d3rpc::Color { r: c.rgb()[0], g: c.rgb()[1], b: c.rgb()[2] }
}

impl d3rpc::LineDescriptor {
    /// No part is missing.
    pub open spec fn complete(&self) -> bool {
        &&& self.v1 is Some
        &&& self.v2 is Some
        &&& self.color is Some
    }

    /// Every optional part is there.
    pub open spec fn whole(&self) -> bool {
        &&& self.v1 is Some
        &&& self.v2 is Some
        &&& self.color is Some
    }

    /// The line that the message describes.
    pub open spec fn shape(&self) -> LineDescriptor {
        LineDescriptor {
            v1: vec_of(self.v1->0),
            v2: vec_of(self.v2->0),
            color: color_of(self.color->0),
        }
    }
}

impl Validated for d3rpc::AddLineRequest {
    open spec fn valid(&self) -> bool {
        self.line_descriptor matches Some(d) && d.complete()
    }

    fn is_valid(&self) -> (ok: bool) {
        match &self.line_descriptor {
            Some(d) => {
                d.v1.is_some()
                    && d.v2.is_some()
                    && d.color.is_some()
            },
            None => false,
        }
    }
}

impl Checked for d3rpc::AddLineRequest {
    open spec fn reason() -> Seq<char> {
        "Invalid line descriptor"@
    }

    fn refusal() -> (text: &'static str) {
        "Invalid line descriptor"
    }
}

impl LineDescriptor {
    /// The line that a message describes in which no part is missing.
    pub fn from(d: d3rpc::LineDescriptor) -> (out: Self)
        requires
            d.whole(),
        ensures
            out == d.shape(),
    {
        LineDescriptor {
            v1: Vec3::from(d.v1.unwrap()),
            v2: Vec3::from(d.v2.unwrap()),
            color: Color::from(d.color.unwrap()),
        }
    }
}

impl From<LineDescriptor> for d3rpc::LineDescriptor {
    fn from(d: LineDescriptor) -> (out: Self) {
        d3rpc::LineDescriptor {
            v1: Some(d3rpc::Vec3::from(d.v1)),
            v2: Some(d3rpc::Vec3::from(d.v2)),
            color: Some(d3rpc::Color::from(d.color)),
        }
    }
}

impl vstd::std_specs::convert::FromSpecImpl<LineDescriptor> for d3rpc::LineDescriptor {
    open spec fn obeys_from_spec() -> bool {
        true
    }

    open spec fn from_spec(d: LineDescriptor) -> Self {
        d3rpc::LineDescriptor {
            v1: Some(vec_msg(d.v1)),
            v2: Some(vec_msg(d.v2)),
            color: Some(color_msg(d.color)),
        }
    }
}

impl d3rpc::TriangleDescriptor {
    /// No part is missing.
    /// The cells asked for are lines or triangles.
    pub open spec fn complete(&self) -> bool {
        &&& self.v1 is Some
        &&& self.v2 is Some
        &&& self.v3 is Some
        &&& self.line_color is Some
        &&& self.tri_color is Some
        &&& CellType::of_code(self.cell_type as int) != CellType::Unset
    }

    /// Every optional part is there.
    pub open spec fn whole(&self) -> bool {
        &&& self.v1 is Some
        &&& self.v2 is Some
        &&& self.v3 is Some
        &&& self.line_color is Some
        &&& self.tri_color is Some
    }

    /// The triangle that the message describes.
    pub open spec fn shape(&self) -> TriangleDescriptor {
        TriangleDescriptor {
            v1: vec_of(self.v1->0),
            v2: vec_of(self.v2->0),
            v3: vec_of(self.v3->0),
            line_color: color_of(self.line_color->0),
            tri_color: color_of(self.tri_color->0),
            cell_type: CellType::of_code(self.cell_type as int),
        }
    }
}

impl Validated for d3rpc::AddTriangleRequest {
    open spec fn valid(&self) -> bool {
        self.triangle_descriptor matches Some(d) && d.complete()
    }

    fn is_valid(&self) -> (ok: bool) {
        match &self.triangle_descriptor {
            Some(d) => {
                d.v1.is_some()
                    && d.v2.is_some()
                    && d.v3.is_some()
                    && d.line_color.is_some()
                    && d.tri_color.is_some()
                    && (d.cell_type == 1 || d.cell_type == 2)
            },
            None => false,
        }
    }
}

impl Checked for d3rpc::AddTriangleRequest {
    open spec fn reason() -> Seq<char> {
        "Invalid triangle descriptor"@
    }

    fn refusal() -> (text: &'static str) {
        "Invalid triangle descriptor"
    }
}

impl TriangleDescriptor {
    /// The triangle that a message describes in which no part is missing.
    pub fn from(d: d3rpc::TriangleDescriptor) -> (out: Self)
        requires
            d.whole(),
        ensures
            out == d.shape(),
    {
        TriangleDescriptor {
            v1: Vec3::from(d.v1.unwrap()),
            v2: Vec3::from(d.v2.unwrap()),
            v3: Vec3::from(d.v3.unwrap()),
            line_color: Color::from(d.line_color.unwrap()),
            tri_color: Color::from(d.tri_color.unwrap()),
            cell_type: CellType::from(d.cell_type),
        }
    }
}

impl From<TriangleDescriptor> for d3rpc::TriangleDescriptor {
    fn from(d: TriangleDescriptor) -> (out: Self) {
        d3rpc::TriangleDescriptor {
            v1: Some(d3rpc::Vec3::from(d.v1)),
            v2: Some(d3rpc::Vec3::from(d.v2)),
            v3: Some(d3rpc::Vec3::from(d.v3)),
            line_color: Some(d3rpc::Color::from(d.line_color)),
            tri_color: Some(d3rpc::Color::from(d.tri_color)),
            cell_type: i32::from(d.cell_type),
        }
    }
}

impl vstd::std_specs::convert::FromSpecImpl<TriangleDescriptor> for d3rpc::TriangleDescriptor {
    open spec fn obeys_from_spec() -> bool {
        true
    }

    open spec fn from_spec(d: TriangleDescriptor) -> Self {
        d3rpc::TriangleDescriptor {
            v1: Some(vec_msg(d.v1)),
            v2: Some(vec_msg(d.v2)),
            v3: Some(vec_msg(d.v3)),
            line_color: Some(color_msg(d.line_color)),
            tri_color: Some(color_msg(d.tri_color)),
            cell_type: d.cell_type.code() as i32,
        }
    }
}

impl d3rpc::PlaneDescriptor {
    /// No part is missing, and the plane reaches from a smaller to a greater bound along
    /// both axes.
    /// The cells asked for are lines or triangles.
    pub open spec fn complete(&self) -> bool {
        &&& self.origin is Some
        &&& self.x_axis is Some
        &&& self.y_axis is Some
        &&& self.line_color is Some
        &&& self.tri_color is Some
        &&& scalar_lt(self.x_min, self.x_max)
        &&& scalar_lt(self.y_min, self.y_max)
        &&& CellType::of_code(self.cell_type as int) != CellType::Unset
    }

    /// Every optional part is there.
    pub open spec fn whole(&self) -> bool {
        &&& self.origin is Some
        &&& self.x_axis is Some
        &&& self.y_axis is Some
        &&& self.line_color is Some
        &&& self.tri_color is Some
    }

    /// The plane that the message describes.
    pub open spec fn shape(&self) -> PlaneDescriptor {
        PlaneDescriptor {
            origin: vec_of(self.origin->0),
            x_axis: vec_of(self.x_axis->0),
            y_axis: vec_of(self.y_axis->0),
            x_min: self.x_min,
            x_max: self.x_max,
            y_min: self.y_min,
            y_max: self.y_max,
            line_color: color_of(self.line_color->0),
            tri_color: color_of(self.tri_color->0),
            cell_type: CellType::of_code(self.cell_type as int),
        }
    }
}

impl Validated for d3rpc::AddPlaneRequest {
    open spec fn valid(&self) -> bool {
        self.plane_descriptor matches Some(d) && d.complete()
    }

    fn is_valid(&self) -> (ok: bool) {
        match &self.plane_descriptor {
            Some(d) => {
                d.origin.is_some()
                    && d.x_axis.is_some()
                    && d.y_axis.is_some()
                    && less_than(d.x_min, d.x_max)
                    && less_than(d.y_min, d.y_max)
                    && d.line_color.is_some()
                    && d.tri_color.is_some()
                    && (d.cell_type == 1 || d.cell_type == 2)
            },
            None => false,
        }
    }
}

impl Checked for d3rpc::AddPlaneRequest {
    open spec fn reason() -> Seq<char> {
        "Invalid plane descriptor"@
    }

    fn refusal() -> (text: &'static str) {
        "Invalid plane descriptor"
    }
}

impl PlaneDescriptor {
    /// The plane that a message describes in which no part is missing.
    pub fn from(d: d3rpc::PlaneDescriptor) -> (out: Self)
        requires
            d.whole(),
        ensures
            out == d.shape(),
    {
        PlaneDescriptor {
            origin: Vec3::from(d.origin.unwrap()),
            x_axis: Vec3::from(d.x_axis.unwrap()),
            y_axis: Vec3::from(d.y_axis.unwrap()),
            x_min: d.x_min,
            x_max: d.x_max,
            y_min: d.y_min,
            y_max: d.y_max,
            line_color: Color::from(d.line_color.unwrap()),
            tri_color: Color::from(d.tri_color.unwrap()),
            cell_type: CellType::from(d.cell_type),
        }
    }
}

impl From<PlaneDescriptor> for d3rpc::PlaneDescriptor {
    fn from(d: PlaneDescriptor) -> (out: Self) {
        d3rpc::PlaneDescriptor {
            origin: Some(d3rpc::Vec3::from(d.origin)),
            x_axis: Some(d3rpc::Vec3::from(d.x_axis)),
            y_axis: Some(d3rpc::Vec3::from(d.y_axis)),
            x_min: d.x_min,
            x_max: d.x_max,
            y_min: d.y_min,
            y_max: d.y_max,
            line_color: Some(d3rpc::Color::from(d.line_color)),
            tri_color: Some(d3rpc::Color::from(d.tri_color)),
            cell_type: i32::from(d.cell_type),
        }
    }
}

impl vstd::std_specs::convert::FromSpecImpl<PlaneDescriptor> for d3rpc::PlaneDescriptor {
    open spec fn obeys_from_spec() -> bool {
        true
    }

    open spec fn from_spec(d: PlaneDescriptor) -> Self {
        d3rpc::PlaneDescriptor {
            origin: Some(vec_msg(d.origin)),
            x_axis: Some(vec_msg(d.x_axis)),
            y_axis: Some(vec_msg(d.y_axis)),
            x_min: d.x_min,
            x_max: d.x_max,
            y_min: d.y_min,
            y_max: d.y_max,
            line_color: Some(color_msg(d.line_color)),
            tri_color: Some(color_msg(d.tri_color)),
            cell_type: d.cell_type.code() as i32,
        }
    }
}

impl d3rpc::CuboidDescriptor {
    /// No part is missing, and the three lengths are positive.
    /// The cells asked for are lines or triangles.
    pub open spec fn complete(&self) -> bool {
        &&& self.origin is Some
        &&& self.x_axis is Some
        &&& self.y_axis is Some
        &&& self.z_axis is Some
        &&& self.line_color is Some
        &&& self.tri_color is Some
        &&& scalar_positive(self.lenx)
        &&& scalar_positive(self.leny)
        &&& scalar_positive(self.lenz)
        &&& CellType::of_code(self.cell_type as int) != CellType::Unset
    }

    /// Every optional part is there.
    pub open spec fn whole(&self) -> bool {
        &&& self.origin is Some
        &&& self.x_axis is Some
        &&& self.y_axis is Some
        &&& self.z_axis is Some
        &&& self.line_color is Some
        &&& self.tri_color is Some
    }

    /// The cuboid that the message describes.
    pub open spec fn shape(&self) -> CuboidDescriptor {
        CuboidDescriptor {
            origin: vec_of(self.origin->0),
            x_axis: vec_of(self.x_axis->0),
            y_axis: vec_of(self.y_axis->0),
            z_axis: vec_of(self.z_axis->0),
            lenx: self.lenx,
            leny: self.leny,
            lenz: self.lenz,
            line_color: color_of(self.line_color->0),
            tri_color: color_of(self.tri_color->0),
            cell_type: CellType::of_code(self.cell_type as int),
        }
    }
}

impl Validated for d3rpc::AddCuboidRequest {
    open spec fn valid(&self) -> bool {
        self.cuboid_descriptor matches Some(d) && d.complete()
    }

    fn is_valid(&self) -> (ok: bool) {
        match &self.cuboid_descriptor {
            Some(d) => {
                d.origin.is_some()
                    && d.x_axis.is_some()
                    && d.y_axis.is_some()
                    && d.z_axis.is_some()
                    && is_positive(d.lenx)
                    && is_positive(d.leny)
                    && is_positive(d.lenz)
                    && d.line_color.is_some()
                    && d.tri_color.is_some()
                    && (d.cell_type == 1 || d.cell_type == 2)
            },
            None => false,
        }
    }
}

impl Checked for d3rpc::AddCuboidRequest {
    open spec fn reason() -> Seq<char> {
        "Invalid cuboid descriptor"@
    }

    fn refusal() -> (text: &'static str) {
        "Invalid cuboid descriptor"
    }
}

impl CuboidDescriptor {
    /// The cuboid that a message describes in which no part is missing.
    pub fn from(d: d3rpc::CuboidDescriptor) -> (out: Self)
        requires
            d.whole(),
        ensures
            out == d.shape(),
    {
        CuboidDescriptor {
            origin: Vec3::from(d.origin.unwrap()),
            x_axis: Vec3::from(d.x_axis.unwrap()),
            y_axis: Vec3::from(d.y_axis.unwrap()),
            z_axis: Vec3::from(d.z_axis.unwrap()),
            lenx: d.lenx,
            leny: d.leny,
            lenz: d.lenz,
            line_color: Color::from(d.line_color.unwrap()),
            tri_color: Color::from(d.tri_color.unwrap()),
            cell_type: CellType::from(d.cell_type),
        }
    }
}

impl From<CuboidDescriptor> for d3rpc::CuboidDescriptor {
    fn from(d: CuboidDescriptor) -> (out: Self) {
        d3rpc::CuboidDescriptor {
            origin: Some(d3rpc::Vec3::from(d.origin)),
            x_axis: Some(d3rpc::Vec3::from(d.x_axis)),
            y_axis: Some(d3rpc::Vec3::from(d.y_axis)),
            z_axis: Some(d3rpc::Vec3::from(d.z_axis)),
            lenx: d.lenx,
            leny: d.leny,
            lenz: d.lenz,
            line_color: Some(d3rpc::Color::from(d.line_color)),
            tri_color: Some(d3rpc::Color::from(d.tri_color)),
            cell_type: i32::from(d.cell_type),
        }
    }
}

impl vstd::std_specs::convert::FromSpecImpl<CuboidDescriptor> for d3rpc::CuboidDescriptor {
    open spec fn obeys_from_spec() -> bool {
        true
    }

    open spec fn from_spec(d: CuboidDescriptor) -> Self {
        d3rpc::CuboidDescriptor {
            origin: Some(vec_msg(d.origin)),
            x_axis: Some(vec_msg(d.x_axis)),
            y_axis: Some(vec_msg(d.y_axis)),
            z_axis: Some(vec_msg(d.z_axis)),
            lenx: d.lenx,
            leny: d.leny,
            lenz: d.lenz,
            line_color: Some(color_msg(d.line_color)),
            tri_color: Some(color_msg(d.tri_color)),
            cell_type: d.cell_type.code() as i32,
        }
    }
}

impl d3rpc::CylinderDescriptor {
    /// No part is missing, radius and height are positive, and there is at least one side.
    /// The cells asked for are lines or triangles.
    pub open spec fn complete(&self) -> bool {
        &&& self.origin is Some
        &&& self.axis is Some
        &&& self.line_color is Some
        &&& self.tri_color is Some
        &&& scalar_positive(self.radius)
        &&& scalar_positive(self.height)
        &&& self.num_sides > 0
        &&& CellType::of_code(self.cell_type as int) != CellType::Unset
    }

    /// Every optional part is there.
    pub open spec fn whole(&self) -> bool {
        &&& self.origin is Some
        &&& self.axis is Some
        &&& self.line_color is Some
        &&& self.tri_color is Some
    }

    /// The cylinder that the message describes.
    pub open spec fn shape(&self) -> CylinderDescriptor {
        CylinderDescriptor {
            origin: vec_of(self.origin->0),
            axis: vec_of(self.axis->0),
            radius: self.radius,
            height: self.height,
            num_sides: self.num_sides as usize,
            line_color: color_of(self.line_color->0),
            tri_color: color_of(self.tri_color->0),
            open: self.open,
            cell_type: CellType::of_code(self.cell_type as int),
        }
    }
}

impl Validated for d3rpc::AddCylinderRequest {
    open spec fn valid(&self) -> bool {
        self.cylinder_descriptor matches Some(d) && d.complete()
    }

    fn is_valid(&self) -> (ok: bool) {
        match &self.cylinder_descriptor {
            Some(d) => {
                d.origin.is_some()
                    && d.axis.is_some()
                    && is_positive(d.radius)
                    && is_positive(d.height)
                    && d.num_sides > 0
                    && d.line_color.is_some()
                    && d.tri_color.is_some()
                    && (d.cell_type == 1 || d.cell_type == 2)
            },
            None => false,
        }
    }
}

impl Checked for d3rpc::AddCylinderRequest {
    open spec fn reason() -> Seq<char> {
        "Invalid cylinder descriptor"@
    }

    fn refusal() -> (text: &'static str) {
        "Invalid cylinder descriptor"
    }
}

impl CylinderDescriptor {
    /// The cylinder that a message describes in which no part is missing.
    pub fn from(d: d3rpc::CylinderDescriptor) -> (out: Self)
        requires
            d.whole(),
        ensures
            out == d.shape(),
    {
        CylinderDescriptor {
            origin: Vec3::from(d.origin.unwrap()),
            axis: Vec3::from(d.axis.unwrap()),
            radius: d.radius,
            height: d.height,
            num_sides: d.num_sides as usize,
            line_color: Color::from(d.line_color.unwrap()),
            tri_color: Color::from(d.tri_color.unwrap()),
            open: d.open,
            cell_type: CellType::from(d.cell_type),
        }
    }
}

impl From<CylinderDescriptor> for d3rpc::CylinderDescriptor {
    fn from(d: CylinderDescriptor) -> (out: Self) {
        d3rpc::CylinderDescriptor {
            origin: Some(d3rpc::Vec3::from(d.origin)),
            axis: Some(d3rpc::Vec3::from(d.axis)),
            radius: d.radius,
            height: d.height,
            num_sides: #[verifier::truncate]
            (d.num_sides as u32),
            line_color: Some(d3rpc::Color::from(d.line_color)),
            tri_color: Some(d3rpc::Color::from(d.tri_color)),
            open: d.open,
            cell_type: i32::from(d.cell_type),
        }
    }
}

impl vstd::std_specs::convert::FromSpecImpl<CylinderDescriptor> for d3rpc::CylinderDescriptor {
    open spec fn obeys_from_spec() -> bool {
        true
    }

    open spec fn from_spec(d: CylinderDescriptor) -> Self {
        d3rpc::CylinderDescriptor {
            origin: Some(vec_msg(d.origin)),
            axis: Some(vec_msg(d.axis)),
            radius: d.radius,
            height: d.height,
            num_sides: d.num_sides as u32,
            line_color: Some(color_msg(d.line_color)),
            tri_color: Some(color_msg(d.tri_color)),
            open: d.open,
            cell_type: d.cell_type.code() as i32,
        }
    }
}

impl d3rpc::DiscDescriptor {
    /// No part is missing, the radius is positive, and there is at least one side.
    /// The cells asked for are lines or triangles.
    pub open spec fn complete(&self) -> bool {
        &&& self.origin is Some
        &&& self.axis is Some
        &&& self.line_color is Some
        &&& self.tri_color is Some
        &&& scalar_positive(self.radius)
        &&& self.num_sides > 0
        &&& CellType::of_code(self.cell_type as int) != CellType::Unset
    }

    /// Every optional part is there.
    pub open spec fn whole(&self) -> bool {
        &&& self.origin is Some
        &&& self.axis is Some
        &&& self.line_color is Some
        &&& self.tri_color is Some
    }

    /// The disc that the message describes.
    pub open spec fn shape(&self) -> DiscDescriptor {
        DiscDescriptor {
            origin: vec_of(self.origin->0),
            axis: vec_of(self.axis->0),
            radius: self.radius,
            num_sides: self.num_sides as usize,
            line_color: color_of(self.line_color->0),
            tri_color: color_of(self.tri_color->0),
            cell_type: CellType::of_code(self.cell_type as int),
        }
    }
}

impl Validated for d3rpc::AddDiscRequest {
    open spec fn valid(&self) -> bool {
        self.disc_descriptor matches Some(d) && d.complete()
    }

    fn is_valid(&self) -> (ok: bool) {
        match &self.disc_descriptor {
            Some(d) => {
                d.origin.is_some()
                    && d.axis.is_some()
                    && is_positive(d.radius)
                    && d.num_sides > 0
                    && d.line_color.is_some()
                    && d.tri_color.is_some()
                    && (d.cell_type == 1 || d.cell_type == 2)
            },
            None => false,
        }
    }
}

impl Checked for d3rpc::AddDiscRequest {
    open spec fn reason() -> Seq<char> {
        "Invalid disc descriptor"@
    }

    fn refusal() -> (text: &'static str) {
        "Invalid disc descriptor"
    }
}

impl DiscDescriptor {
    /// The disc that a message describes in which no part is missing.
    pub fn from(d: d3rpc::DiscDescriptor) -> (out: Self)
        requires
            d.whole(),
        ensures
            out == d.shape(),
    {
        DiscDescriptor {
            origin: Vec3::from(d.origin.unwrap()),
            axis: Vec3::from(d.axis.unwrap()),
            radius: d.radius,
            num_sides: d.num_sides as usize,
            line_color: Color::from(d.line_color.unwrap()),
            tri_color: Color::from(d.tri_color.unwrap()),
            cell_type: CellType::from(d.cell_type),
        }
    }
}

impl From<DiscDescriptor> for d3rpc::DiscDescriptor {
    fn from(d: DiscDescriptor) -> (out: Self) {
        d3rpc::DiscDescriptor {
            origin: Some(d3rpc::Vec3::from(d.origin)),
            axis: Some(d3rpc::Vec3::from(d.axis)),
            radius: d.radius,
            num_sides: #[verifier::truncate]
            (d.num_sides as u32),
            line_color: Some(d3rpc::Color::from(d.line_color)),
            tri_color: Some(d3rpc::Color::from(d.tri_color)),
            cell_type: i32::from(d.cell_type),
        }
    }
}

impl vstd::std_specs::convert::FromSpecImpl<DiscDescriptor> for d3rpc::DiscDescriptor {
    open spec fn obeys_from_spec() -> bool {
        true
    }

    open spec fn from_spec(d: DiscDescriptor) -> Self {
        d3rpc::DiscDescriptor {
            origin: Some(vec_msg(d.origin)),
            axis: Some(vec_msg(d.axis)),
            radius: d.radius,
            num_sides: d.num_sides as u32,
            line_color: Some(color_msg(d.line_color)),
            tri_color: Some(color_msg(d.tri_color)),
            cell_type: d.cell_type.code() as i32,
        }
    }
}

impl d3rpc::SphereDescriptor {
    /// No part is missing, the radius is positive, and there is at least one division each
    /// way.
    /// The cells asked for are lines or triangles.
    pub open spec fn complete(&self) -> bool {
        &&& self.origin is Some
        &&& self.axis is Some
        &&& self.line_color is Some
        &&& self.tri_color is Some
        &&& scalar_positive(self.radius)
        &&& self.n_lat > 0
        &&& self.n_long > 0
        &&& CellType::of_code(self.cell_type as int) != CellType::Unset
    }

    /// Every optional part is there.
    pub open spec fn whole(&self) -> bool {
        &&& self.origin is Some
        &&& self.axis is Some
        &&& self.line_color is Some
        &&& self.tri_color is Some
    }

    /// The sphere that the message describes.
    pub open spec fn shape(&self) -> SphereDescriptor {
        SphereDescriptor {
            origin: vec_of(self.origin->0),
            axis: vec_of(self.axis->0),
            radius: self.radius,
            n_lat: self.n_lat as usize,
            n_long: self.n_long as usize,
            line_color: color_of(self.line_color->0),
            tri_color: color_of(self.tri_color->0),
            cell_type: CellType::of_code(self.cell_type as int),
        }
    }
}

impl Validated for d3rpc::AddSphereRequest {
    open spec fn valid(&self) -> bool {
        self.sphere_descriptor matches Some(d) && d.complete()
    }

    fn is_valid(&self) -> (ok: bool) {
        match &self.sphere_descriptor {
            Some(d) => {
                d.origin.is_some()
                    && d.axis.is_some()
                    && is_positive(d.radius)
                    && d.n_lat > 0
                    && d.n_long > 0
                    && d.line_color.is_some()
                    && d.tri_color.is_some()
                    && (d.cell_type == 1 || d.cell_type == 2)
            },
            None => false,
        }
    }
}

impl Checked for d3rpc::AddSphereRequest {
    open spec fn reason() -> Seq<char> {
        "Invalid sphere descriptor"@
    }

    fn refusal() -> (text: &'static str) {
        "Invalid sphere descriptor"
    }
}

impl SphereDescriptor {
    /// The sphere that a message describes in which no part is missing.
    pub fn from(d: d3rpc::SphereDescriptor) -> (out: Self)
        requires
            d.whole(),
        ensures
            out == d.shape(),
    {
        SphereDescriptor {
            origin: Vec3::from(d.origin.unwrap()),
            axis: Vec3::from(d.axis.unwrap()),
            radius: d.radius,
            n_lat: d.n_lat as usize,
            n_long: d.n_long as usize,
            line_color: Color::from(d.line_color.unwrap()),
            tri_color: Color::from(d.tri_color.unwrap()),
            cell_type: CellType::from(d.cell_type),
        }
    }
}

impl From<SphereDescriptor> for d3rpc::SphereDescriptor {
    fn from(d: SphereDescriptor) -> (out: Self) {
        d3rpc::SphereDescriptor {
            origin: Some(d3rpc::Vec3::from(d.origin)),
            axis: Some(d3rpc::Vec3::from(d.axis)),
            radius: d.radius,
            n_lat: #[verifier::truncate]
            (d.n_lat as u32),
            n_long: #[verifier::truncate]
            (d.n_long as u32),
            line_color: Some(d3rpc::Color::from(d.line_color)),
            tri_color: Some(d3rpc::Color::from(d.tri_color)),
            cell_type: i32::from(d.cell_type),
        }
    }
}

impl vstd::std_specs::convert::FromSpecImpl<SphereDescriptor> for d3rpc::SphereDescriptor {
    open spec fn obeys_from_spec() -> bool {
        true
    }

    open spec fn from_spec(d: SphereDescriptor) -> Self {
        d3rpc::SphereDescriptor {
            origin: Some(vec_msg(d.origin)),
            axis: Some(vec_msg(d.axis)),
            radius: d.radius,
            n_lat: d.n_lat as u32,
            n_long: d.n_long as u32,
            line_color: Some(color_msg(d.line_color)),
            tri_color: Some(color_msg(d.tri_color)),
            cell_type: d.cell_type.code() as i32,
        }
    }
}

impl d3rpc::AxesDescriptor {
    /// No part is missing, and both lengths are positive.
    pub open spec fn complete(&self) -> bool {
        &&& self.origin is Some
        &&& self.x_axis is Some
        &&& self.y_axis is Some
        &&& self.z_axis is Some
        &&& scalar_positive(self.neg_len)
        &&& scalar_positive(self.pos_len)
    }

    /// Every optional part is there.
    pub open spec fn whole(&self) -> bool {
        &&& self.origin is Some
        &&& self.x_axis is Some
        &&& self.y_axis is Some
        &&& self.z_axis is Some
    }

    /// The axes that the message describes.
    pub open spec fn shape(&self) -> AxesDescriptor {
        AxesDescriptor {
            origin: vec_of(self.origin->0),
            x_axis: vec_of(self.x_axis->0),
            y_axis: vec_of(self.y_axis->0),
            z_axis: vec_of(self.z_axis->0),
            neg_len: self.neg_len,
            pos_len: self.pos_len,
        }
    }
}

impl Validated for d3rpc::AddAxesRequest {
    open spec fn valid(&self) -> bool {
        self.axes_descriptor matches Some(d) && d.complete()
    }

    fn is_valid(&self) -> (ok: bool) {
        match &self.axes_descriptor {
            Some(d) => {
                d.origin.is_some()
                    && d.x_axis.is_some()
                    && d.y_axis.is_some()
                    && d.z_axis.is_some()
                    && is_positive(d.neg_len)
                    && is_positive(d.pos_len)
            },
            None => false,
        }
    }
}

impl Checked for d3rpc::AddAxesRequest {
    open spec fn reason() -> Seq<char> {
        "Invalid axes descriptor"@
    }

    fn refusal() -> (text: &'static str) {
        "Invalid axes descriptor"
    }
}

impl AxesDescriptor {
    /// The axes that a message describes in which no part is missing.
    pub fn from(d: d3rpc::AxesDescriptor) -> (out: Self)
        requires
            d.whole(),
        ensures
            out == d.shape(),
    {
        AxesDescriptor {
            origin: Vec3::from(d.origin.unwrap()),
            x_axis: Vec3::from(d.x_axis.unwrap()),
            y_axis: Vec3::from(d.y_axis.unwrap()),
            z_axis: Vec3::from(d.z_axis.unwrap()),
            neg_len: d.neg_len,
            pos_len: d.pos_len,
        }
    }
}

impl From<AxesDescriptor> for d3rpc::AxesDescriptor {
    fn from(d: AxesDescriptor) -> (out: Self) {
        d3rpc::AxesDescriptor {
            origin: Some(d3rpc::Vec3::from(d.origin)),
            x_axis: Some(d3rpc::Vec3::from(d.x_axis)),
            y_axis: Some(d3rpc::Vec3::from(d.y_axis)),
            z_axis: Some(d3rpc::Vec3::from(d.z_axis)),
            neg_len: d.neg_len,
            pos_len: d.pos_len,
        }
    }
}

impl vstd::std_specs::convert::FromSpecImpl<AxesDescriptor> for d3rpc::AxesDescriptor {
    open spec fn obeys_from_spec() -> bool {
        true
    }

    open spec fn from_spec(d: AxesDescriptor) -> Self {
        d3rpc::AxesDescriptor {
            origin: Some(vec_msg(d.origin)),
            x_axis: Some(vec_msg(d.x_axis)),
            y_axis: Some(vec_msg(d.y_axis)),
            z_axis: Some(vec_msg(d.z_axis)),
            neg_len: d.neg_len,
            pos_len: d.pos_len,
        }
    }
}

impl d3rpc::MeshDescriptor {
    /// The words and indices of the message can be drawn: the cells are lines or triangles,
    /// the words make whole vertices, the indices make whole cells, and every index names
    /// a vertex of the message.
    pub open spec fn drawable(&self) -> bool {
        drawable(
            CellType::of_code(self.cell_type as int),
            self.vertices@,
            self.indices@,
            Vertex::spec_len(),
        )
    }
}

impl Validated for d3rpc::AddMeshRequest {
    open spec fn valid(&self) -> bool {
        self.mesh_descriptor matches Some(d) && d.vertices@.len() > 0 && d.indices@.len() > 0
            && d.drawable()
    }

    fn is_valid(&self) -> (ok: bool) {
        proof {
            Vertex::lemma_layout();
        }
        match &self.mesh_descriptor {
            Some(md) => {
                md.vertices.len() > 0 && md.indices.len() > 0 && is_drawable(
                    CellType::from(md.cell_type),
                    md.vertices.as_slice(),
                    md.indices.as_slice(),
                    Vertex::len(),
                )
            },
            None => false,
        }
    }
}

impl Checked for d3rpc::AddMeshRequest {
    open spec fn reason() -> Seq<char> {
        "Invalid mesh descriptor"@
    }

    fn refusal() -> (text: &'static str) {
        "Invalid mesh descriptor"
    }
}

impl Mesh {
    /// The mesh that a message describes, not yet given an identifier.
    pub fn from(md: d3rpc::MeshDescriptor) -> (mesh: Self)
        ensures
            mesh.vertices == md.vertices,
            mesh.indices == md.indices,
            mesh.cell_type == CellType::of_code(md.cell_type as int),
            mesh.uid == 0,
    {
        Mesh {
            vertices: md.vertices,
            indices: md.indices,
            cell_type: CellType::from(md.cell_type),
            uid: 0,
            phant: PhantomData,
        }
    }
}

impl d3rpc::MeshDescriptor {
    /// The message that describes `mesh`.
    pub fn from(mesh: Mesh) -> (md: Self)
        ensures
            md.vertices == mesh.vertices,
            md.indices == mesh.indices,
            md.cell_type == mesh.cell_type.code(),
    {
        d3rpc::MeshDescriptor {
            vertices: mesh.vertices,
            indices: mesh.indices,
            cell_type: i32::from(mesh.cell_type),
        }
    }
}

} // verus!
