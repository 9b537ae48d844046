//! The messages of the planar viewer's service, as they arrive: fields that a client may
//! leave out are optional, and cell types travel as numbers.
use crate::common::Scalar;
use vstd::prelude::*;

verus! {

#[derive(Clone, Copy, Debug, PartialEq, Eq, Structural)]
pub struct Color {
    pub r: Scalar,
    pub g: Scalar,
    pub b: Scalar,
}

#[derive(Clone, Copy, Debug, PartialEq, Eq, Structural)]
pub struct Vec2 {
    pub x: Scalar,
    pub y: Scalar,
}

#[derive(Clone, Copy, Debug, PartialEq, Eq, Structural)]
pub struct AddItemResponse {
    pub id: u64,
}

#[derive(Clone, Copy, Debug, PartialEq, Eq, Structural)]
pub struct AxesDescriptor {
    pub origin: Option<Vec2>,
    pub x_axis: Option<Vec2>,
    pub y_axis: Option<Vec2>,
    pub neg_len: Scalar,
    pub pos_len: Scalar,
}

#[derive(Debug)]
pub struct AddAxesRequest {
    pub client_name: String,
    pub axes_descriptor: Option<AxesDescriptor>,
}

#[derive(Clone, Copy, Debug, PartialEq, Eq, Structural)]
pub struct LineDescriptor {
    pub v1: Option<Vec2>,
    pub v2: Option<Vec2>,
    pub color: Option<Color>,
}

#[derive(Debug)]
pub struct AddLineRequest {
    pub client_name: String,
    pub line_descriptor: Option<LineDescriptor>,
}

#[derive(Clone, Copy, Debug, PartialEq, Eq, Structural)]
pub struct SquareDescriptor {
    pub origin: Option<Vec2>,
    pub x_axis: Option<Vec2>,
    pub y_axis: Option<Vec2>,
    pub lenx: Scalar,
    pub leny: Scalar,
    pub line_color: Option<Color>,
    pub tri_color: Option<Color>,
    pub cell_type: i32,
}

#[derive(Debug)]
pub struct AddSquareRequest {
    pub client_name: String,
    pub square_descriptor: Option<SquareDescriptor>,
}

#[derive(Clone, Copy, Debug, PartialEq, Eq, Structural)]
pub struct CircleDescriptor {
    pub center: Option<Vec2>,
    pub radius: Scalar,
    pub num_sides: u32,
    pub line_color: Option<Color>,
    pub tri_color: Option<Color>,
    pub cell_type: i32,
}

#[derive(Debug)]
pub struct AddCircleRequest {
    pub client_name: String,
    pub circle_descriptor: Option<CircleDescriptor>,
}

#[derive(Debug)]
pub struct MeshDescriptor {
    pub vertices: Vec<Scalar>,
    pub indices: Vec<u32>,
    pub cell_type: i32,
}

#[derive(Debug)]
pub struct AddMeshRequest {
    pub client_name: String,
    pub mesh_descriptor: Option<MeshDescriptor>,
}

#[derive(Debug)]
pub struct ClearRequest {
    pub client_name: String,
}

#[derive(Clone, Copy, Debug, PartialEq, Eq, Structural)]
pub struct ClearResponse {
}

#[derive(Debug)]
pub struct KillServerRequest {
    pub client_name: String,
}

#[derive(Clone, Copy, Debug, PartialEq, Eq, Structural)]
pub struct KillServerResponse {
}

} // verus!
