//! The handlers of the planar viewer's service.
//!
//! Each handler checks the request, rejects it without touching the scene when it is not
//! valid, and otherwise hands the shape to the scene and answers with the identifier of
//! the new mesh. A mesh that cannot be drawn never reaches the scene. The caller holds
//! the lock on the scene for the time of the call; the check alone, which needs no scene,
//! is `validate`, for a caller that wants it done before the lock is taken.
use super::d2rpc;
use crate::common::Validated;
use crate::common::Vec2;
use crate::d2::mesh::{AxesDescriptor, CircleDescriptor, LineDescriptor, Mesh, SquareDescriptor};
use crate::d2::shapes::{shows_axes, shows_circle, shows_square};
use crate::d2::state::{State, State2D};
use crate::scene::service::{added, shutdown_status, validate, Checked, Code, Status};
use crate::scene::state::grown;
use vstd::prelude::*;

verus! {

/// A request that was not valid is answered with `reason`, and the scene is as it was.
pub open spec fn rejected<T>(before: State, after: State, out: Result<T, Status>, reason: Seq<
    char,
>) -> bool {
    &&& out matches Err(status)
    &&& status.code == Code::InvalidArgument
    &&& status.message@ == reason
    &&& after == before
}

/// Adds a pair of axes, whose arms reach from `ends[0]` to `ends[1]` and from `ends[2]`
/// to `ends[3]`.
pub fn add_axes(
    state: &mut State,
    msg: d2rpc::AddAxesRequest,
    ends: &[Vec2; 4],
) -> (out: Result<d2rpc::AddItemResponse, Status>)
    requires
        old(state).wf(),
        old(state).mesh_state.next_uid < usize::MAX,
    ensures
        final(state).wf(),
        out is Ok <==> msg.valid(),
        out is Err ==> rejected(*old(state), *final(state), out, d2rpc::AddAxesRequest::reason()),
        out matches Ok(response) ==> response.id == old(state).mesh_state.next_uid && grown(
            *old(state),
            *final(state),
            response.id as usize,
        ) && shows_axes(final(state).mesh_state.meshes@[response.id as usize], ends@),
{
    match validate(&msg) {
        Ok(()) => {
            let axes_desc = AxesDescriptor::from(msg.axes_descriptor.unwrap());
            let mesh_uid = state.add_axes(ends);
            Ok(d2rpc::AddItemResponse { id: mesh_uid as u64 })
        },
        Err(status) => Err(status),
    }
}

/// Adds a line segment.
pub fn add_line(state: &mut State, msg: d2rpc::AddLineRequest) -> (out: Result<
    d2rpc::AddItemResponse,
    Status,
>)
    requires
        old(state).wf(),
        old(state).mesh_state.next_uid < usize::MAX,
    ensures
        final(state).wf(),
        out is Ok <==> msg.valid(),
        out matches Err(status) ==> status.code == Code::InvalidArgument && status.message@
            == d2rpc::AddLineRequest::reason() && *final(state) == *old(state),
        out matches Ok(response) ==> response.id == old(state).mesh_state.next_uid && line_added(
            *old(state),
            *final(state),
            msg.line_descriptor->0.shape(),
            response.id as usize,
        ),
{
    match validate(&msg) {
        Ok(()) => {
            let line_desc = LineDescriptor::from(msg.line_descriptor.unwrap());
            let mesh_uid = state.add_line(&line_desc);
            Ok(d2rpc::AddItemResponse { id: mesh_uid as u64 })
        },
        Err(status) => Err(status),
    }
}

/// The scene after the line `line` was added to `before` under the identifier `uid`.
pub open spec fn line_added(before: State, after: State, line: LineDescriptor, uid: usize) -> bool {
    &&& uid == before.mesh_state.next_uid
    &&& after.mesh_state.next_uid == uid + 1
    &&& after.mesh_state.meshes@.dom() == before.mesh_state.meshes@.dom().insert(uid)
    &&& forall|other: usize|
        before.mesh_state.meshes@.contains_key(other) ==> after.mesh_state.meshes@[other]
            == before.mesh_state.meshes@[other]
    &&& after.mesh_state.meshes@[uid].uid == uid
    &&& after.mesh_state.meshes@[uid].cell_type == crate::common::CellType::Line
    &&& after.mesh_state.meshes@[uid].indices@ == seq![0u32, 1u32]
    &&& after.mesh_state.meshes@[uid].vertices@ == crate::d2::mesh::vertex_words(
        line.v1,
        line.color,
        crate::common::Color::Gray,
    ) + crate::d2::mesh::vertex_words(line.v2, line.color, crate::common::Color::Gray)
    &&& after.view_state == before.view_state
    &&& after.wgpu_state == before.wgpu_state
}

/// Adds a square, whose corners lie at `corners`.
pub fn add_square(
    state: &mut State,
    msg: d2rpc::AddSquareRequest,
    corners: &[Vec2; 4],
) -> (out: Result<d2rpc::AddItemResponse, Status>)
    requires
        old(state).wf(),
        old(state).mesh_state.next_uid < usize::MAX,
    ensures
        final(state).wf(),
        out is Ok <==> msg.valid(),
        out is Err ==> rejected(*old(state), *final(state), out, d2rpc::AddSquareRequest::reason()),
        out matches Ok(response) ==> response.id == old(state).mesh_state.next_uid && grown(
            *old(state),
            *final(state),
            response.id as usize,
        ) && shows_square(
            final(state).mesh_state.meshes@[response.id as usize],
            msg.square_descriptor->0.shape(),
            corners@,
        ),
{
    match validate(&msg) {
        Ok(()) => {
            let square_desc = SquareDescriptor::from(msg.square_descriptor.unwrap());
            let mesh_uid = state.add_square(&square_desc, corners);
            Ok(d2rpc::AddItemResponse { id: mesh_uid as u64 })
        },
        Err(status) => Err(status),
    }
}

/// Adds a circle, drawn as the polygon with the corners `rim`: as many as the circle has
/// sides, and no more than a mesh can count.
pub fn add_circle(
    state: &mut State,
    msg: d2rpc::AddCircleRequest,
    rim: &[Vec2],
) -> (out: Result<d2rpc::AddItemResponse, Status>)
    requires
        old(state).wf(),
        old(state).mesh_state.next_uid < usize::MAX,
        msg.valid() ==> rim@.len() == msg.circle_descriptor->0.num_sides,
        msg.valid() ==> 3 * msg.circle_descriptor->0.num_sides <= u32::MAX,
    ensures
        final(state).wf(),
        out is Ok <==> msg.valid(),
        out is Err ==> rejected(*old(state), *final(state), out, d2rpc::AddCircleRequest::reason()),
        out matches Ok(response) ==> response.id == old(state).mesh_state.next_uid && grown(
            *old(state),
            *final(state),
            response.id as usize,
        ) && shows_circle(
            final(state).mesh_state.meshes@[response.id as usize],
            msg.circle_descriptor->0.shape(),
            rim@,
        ),
{
    match validate(&msg) {
        Ok(()) => {
            let circle_desc = CircleDescriptor::from(msg.circle_descriptor.unwrap());
            let mesh_uid = state.add_circle(&circle_desc, rim);
            Ok(d2rpc::AddItemResponse { id: mesh_uid as u64 })
        },
        Err(status) => Err(status),
    }
}

/// Adds a mesh that the client has made itself.
pub fn add_mesh(state: &mut State, msg: d2rpc::AddMeshRequest) -> (out: Result<
    d2rpc::AddItemResponse,
    Status,
>)
    requires
        old(state).wf(),
        old(state).mesh_state.next_uid < usize::MAX,
    ensures
        final(state).wf(),
        out is Ok <==> msg.valid(),
        out matches Err(status) ==> status.code == Code::InvalidArgument && status.message@
            == d2rpc::AddMeshRequest::reason() && *final(state) == *old(state),
        out matches Ok(response) ==> response.id == old(state).mesh_state.next_uid && added(
            *old(state),
            *final(state),
            Mesh {
                vertices: msg.mesh_descriptor->0.vertices,
                indices: msg.mesh_descriptor->0.indices,
                cell_type: crate::common::CellType::of_code(
                    msg.mesh_descriptor->0.cell_type as int,
                ),
                uid: 0,
                phant: std::marker::PhantomData,
            },
            response.id as usize,
        ),
{
    match validate(&msg) {
        Ok(()) => {
            let mesh = Mesh::from(msg.mesh_descriptor.unwrap());
            let mesh_uid = state.add_mesh(mesh);
            Ok(d2rpc::AddItemResponse { id: mesh_uid as u64 })
        },
        Err(status) => Err(status),
    }
}

/// Removes all meshes from the scene.
pub fn clear(state: &mut State, msg: d2rpc::ClearRequest) -> (out: Result<
    d2rpc::ClearResponse,
    Status,
>)
    requires
        old(state).wf(),
    ensures
        final(state).wf(),
        out is Ok,
        final(state).mesh_state.meshes@ == Map::<usize, Mesh>::empty(),
        final(state).mesh_state.next_uid == old(state).mesh_state.next_uid,
        final(state).view_state == old(state).view_state,
        final(state).wgpu_state == old(state).wgpu_state,
{
    state.clear_meshes();
    Ok(d2rpc::ClearResponse {  })
}

/// Answers a request to stop the service, given how sending the shutdown signal went.
pub fn kill_server(msg: d2rpc::KillServerRequest, sent: Result<(), String>) -> (out: Result<
    d2rpc::KillServerResponse,
    Status,
>)
    ensures
        out is Ok <==> sent is Ok,
        out matches Err(status) ==> status.code == Code::Internal && status.message@
            == "Failed to send shutdown signal due to error: "@ + sent->Err_0@,
{
    match shutdown_status(sent) {
        Ok(()) => Ok(d2rpc::KillServerResponse {  }),
        Err(status) => Err(status),
    }
}

} // verus!
