//! The messages of the spatial viewer's service, as they arrive: fields that a client may
//! leave out are optional, and cell types travel as numbers.
use crate::common::Scalar;
use vstd::prelude::*;

verus! {

#[derive(Clone, Copy, Debug, PartialEq, Eq, Structural)]
pub struct Color {
    pub r: Scalar,
    pub g: Scalar,
    pub b: Scalar,
}

#[derive(Clone, Copy, Debug, PartialEq, Eq, Structural)]
pub struct Vec3 {
    pub x: Scalar,
    pub y: Scalar,
    pub z: Scalar,
}

#[derive(Clone, Copy, Debug, PartialEq, Eq, Structural)]
pub struct AddItemResponse {
    pub id: u64,
}

#[derive(Clone, Copy, Debug, PartialEq, Eq, Structural)]
pub struct LineDescriptor {
    pub v1: Option<Vec3>,
    pub v2: Option<Vec3>,
    pub color: Option<Color>,
}

#[derive(Debug)]
pub struct AddLineRequest {
    pub client_name: String,
    pub line_descriptor: Option<LineDescriptor>,
}

#[derive(Clone, Copy, Debug, PartialEq, Eq, Structural)]
pub struct TriangleDescriptor {
    pub v1: Option<Vec3>,
    pub v2: Option<Vec3>,
    pub v3: Option<Vec3>,
    pub line_color: Option<Color>,
    pub tri_color: Option<Color>,
    pub cell_type: i32,
}

#[derive(Debug)]
pub struct AddTriangleRequest {
    pub client_name: String,
    pub triangle_descriptor: Option<TriangleDescriptor>,
}

#[derive(Clone, Copy, Debug, PartialEq, Eq, Structural)]
pub struct PlaneDescriptor {
    pub origin: Option<Vec3>,
    pub x_axis: Option<Vec3>,
    pub y_axis: Option<Vec3>,
    pub x_min: Scalar,
    pub x_max: Scalar,
    pub y_min: Scalar,
    pub y_max: Scalar,
    pub line_color: Option<Color>,
    pub tri_color: Option<Color>,
    pub cell_type: i32,
}

#[derive(Debug)]
pub struct AddPlaneRequest {
    pub client_name: String,
    pub plane_descriptor: Option<PlaneDescriptor>,
}

#[derive(Clone, Copy, Debug, PartialEq, Eq, Structural)]
pub struct CuboidDescriptor {
    pub origin: Option<Vec3>,
    pub x_axis: Option<Vec3>,
    pub y_axis: Option<Vec3>,
    pub z_axis: Option<Vec3>,
    pub lenx: Scalar,
    pub leny: Scalar,
    pub lenz: Scalar,
    pub line_color: Option<Color>,
    pub tri_color: Option<Color>,
    pub cell_type: i32,
}

#[derive(Debug)]
pub struct AddCuboidRequest {
    pub client_name: String,
    pub cuboid_descriptor: Option<CuboidDescriptor>,
}

#[derive(Clone, Copy, Debug, PartialEq, Eq, Structural)]
pub struct CylinderDescriptor {
    pub origin: Option<Vec3>,
    pub axis: Option<Vec3>,
    pub radius: Scalar,
    pub height: Scalar,
    pub num_sides: u32,
    pub line_color: Option<Color>,
    pub tri_color: Option<Color>,
    pub open: bool,
    pub cell_type: i32,
}

#[derive(Debug)]
pub struct AddCylinderRequest {
    pub client_name: String,
    pub cylinder_descriptor: Option<CylinderDescriptor>,
}

#[derive(Clone, Copy, Debug, PartialEq, Eq, Structural)]
pub struct DiscDescriptor {
    pub origin: Option<Vec3>,
    pub axis: Option<Vec3>,
    pub radius: Scalar,
    pub num_sides: u32,
    pub line_color: Option<Color>,
    pub tri_color: Option<Color>,
    pub cell_type: i32,
}

#[derive(Debug)]
pub struct AddDiscRequest {
    pub client_name: String,
    pub disc_descriptor: Option<DiscDescriptor>,
}

#[derive(Clone, Copy, Debug, PartialEq, Eq, Structural)]
pub struct SphereDescriptor {
    pub origin: Option<Vec3>,
    pub axis: Option<Vec3>,
    pub radius: Scalar,
    pub n_lat: u32,
    pub n_long: u32,
    pub line_color: Option<Color>,
    pub tri_color: Option<Color>,
    pub cell_type: i32,
}

#[derive(Debug)]
pub struct AddSphereRequest {
    pub client_name: String,
    pub sphere_descriptor: Option<SphereDescriptor>,
}

#[derive(Clone, Copy, Debug, PartialEq, Eq, Structural)]
pub struct AxesDescriptor {
    pub origin: Option<Vec3>,
    pub x_axis: Option<Vec3>,
    pub y_axis: Option<Vec3>,
    pub z_axis: Option<Vec3>,
    pub neg_len: Scalar,
    pub pos_len: Scalar,
}

#[derive(Debug)]
pub struct AddAxesRequest {
    pub client_name: String,
    pub axes_descriptor: Option<AxesDescriptor>,
}

#[derive(Debug)]
pub struct MeshDescriptor {
    pub vertices: Vec<Scalar>,
    pub indices: Vec<u32>,
    pub cell_type: i32,
}

#[derive(Debug)]
pub struct AddMeshRequest {
    pub client_name: String,
    pub mesh_descriptor: Option<MeshDescriptor>,
}

#[derive(Debug)]
pub struct ClearRequest {
    pub client_name: String,
}

#[derive(Clone, Copy, Debug, PartialEq, Eq, Structural)]
pub struct ClearResponse {
}

#[derive(Debug)]
pub struct KillServerRequest {
    pub client_name: String,
}

#[derive(Clone, Copy, Debug, PartialEq, Eq, Structural)]
pub struct KillServerResponse {
}

} // verus!
