//! The handlers of the spatial viewer's service.
//!
//! Each handler checks the request, rejects it without touching the scene when it is not
//! valid, and otherwise hands the shape to the scene and answers with the identifier of
//! the new mesh. A mesh that cannot be drawn never reaches the scene. The caller holds
//! the lock on the scene for the time of the call; the check alone, which needs no scene,
//! is `validate`, for a caller that wants it done before the lock is taken.
use super::d3rpc;
use crate::common::Validated;
use crate::d3::mesh::{
    AxesDescriptor, CuboidDescriptor, CylinderDescriptor, DiscDescriptor, LineDescriptor, Mesh,
    PlaneDescriptor, SphereDescriptor, TriangleDescriptor,
};
use crate::common::Vec3;
use crate::d3::shapes::{
    fitting, shows_axes, shows_cuboid, shows_cylinder, shows_disc, shows_plane, shows_sphere,
    shows_triangle,
};
use crate::d3::state::{State, State3D};
use crate::scene::service::{added, shutdown_status, validate, Checked, Code, Status};
use crate::scene::state::grown;
use vstd::prelude::*;

verus! {

/// A request that was not valid is answered with `reason`, and the scene is as it was.
pub open spec fn rejected<T>(before: State, after: State, out: Result<T, Status>, reason: Seq<
    char,
>) -> bool {
    &&& out matches Err(status)
    &&& status.code == Code::InvalidArgument
    &&& status.message@ == reason
    &&& after == before
}

/// The scene after the line `line` was added to `before` under the identifier `uid`.
pub open spec fn line_added(before: State, after: State, line: LineDescriptor, uid: usize) -> bool {
    &&& uid == before.mesh_state.next_uid
    &&& after.mesh_state.next_uid == uid + 1
    &&& after.mesh_state.meshes@.dom() == before.mesh_state.meshes@.dom().insert(uid)
    &&& forall|other: usize|
        before.mesh_state.meshes@.contains_key(other) ==> after.mesh_state.meshes@[other]
            == before.mesh_state.meshes@[other]
    &&& after.mesh_state.meshes@[uid].uid == uid
    &&& after.mesh_state.meshes@[uid].cell_type == crate::common::CellType::Line
    &&& after.mesh_state.meshes@[uid].indices@ == seq![0u32, 1u32]
    &&& after.mesh_state.meshes@[uid].vertices@ == crate::d3::mesh::vertex_words(
        line.v1,
        crate::d3::mesh::no_normal(),
        line.color,
        line.color,
    ) + crate::d3::mesh::vertex_words(line.v2, crate::d3::mesh::no_normal(), line.color, line.color)
    &&& after.view_state == before.view_state
    &&& after.wgpu_state == before.wgpu_state
}

/// Adds a line segment.
pub fn add_line(state: &mut State, msg: d3rpc::AddLineRequest) -> (out: Result<
    d3rpc::AddItemResponse,
    Status,
>)
    requires
        old(state).wf(),
        old(state).mesh_state.next_uid < usize::MAX,
    ensures
        final(state).wf(),
        out is Ok <==> msg.valid(),
        out matches Err(status) ==> status.code == Code::InvalidArgument && status.message@
            == d3rpc::AddLineRequest::reason() && *final(state) == *old(state),
        out matches Ok(response) ==> response.id == old(state).mesh_state.next_uid && line_added(
            *old(state),
            *final(state),
            msg.line_descriptor->0.shape(),
            response.id as usize,
        ),
{
    match validate(&msg) {
        Ok(()) => {
            let line_desc = LineDescriptor::from(msg.line_descriptor.unwrap());
            let mesh_uid = state.add_line(&line_desc);
            Ok(d3rpc::AddItemResponse { id: mesh_uid as u64 })
        },
        Err(status) => Err(status),
    }
}

/// Adds a triangle, whose unit normal is `normal`.
pub fn add_triangle(
    state: &mut State,
    msg: d3rpc::AddTriangleRequest,
    normal: &Vec3,
) -> (out: Result<d3rpc::AddItemResponse, Status>)
    requires
        old(state).wf(),
        old(state).mesh_state.next_uid < usize::MAX,
    ensures
        final(state).wf(),
        out is Ok <==> msg.valid(),
        out is Err ==> rejected(*old(state), *final(state), out, d3rpc::AddTriangleRequest::reason()),
        out matches Ok(response) ==> response.id == old(state).mesh_state.next_uid && grown(
            *old(state),
            *final(state),
            response.id as usize,
        ) && shows_triangle(
            final(state).mesh_state.meshes@[response.id as usize],
            msg.triangle_descriptor->0.shape(),
            *normal,
        ),
{
    match validate(&msg) {
        Ok(()) => {
            let triangle_desc = TriangleDescriptor::from(msg.triangle_descriptor.unwrap());
            let mesh_uid = state.add_triangle(&triangle_desc, normal);
            Ok(d3rpc::AddItemResponse { id: mesh_uid as u64 })
        },
        Err(status) => Err(status),
    }
}

/// Adds a plane, whose corners lie at `corners` and whose two triangles have the unit
/// normals `normals`.
pub fn add_plane(
    state: &mut State,
    msg: d3rpc::AddPlaneRequest,
    corners: &[Vec3; 4],
    normals: &[Vec3; 2],
) -> (out: Result<d3rpc::AddItemResponse, Status>)
    requires
        old(state).wf(),
        old(state).mesh_state.next_uid < usize::MAX,
    ensures
        final(state).wf(),
        out is Ok <==> msg.valid(),
        out is Err ==> rejected(*old(state), *final(state), out, d3rpc::AddPlaneRequest::reason()),
        out matches Ok(response) ==> response.id == old(state).mesh_state.next_uid && grown(
            *old(state),
            *final(state),
            response.id as usize,
        ) && shows_plane(
            final(state).mesh_state.meshes@[response.id as usize],
            msg.plane_descriptor->0.shape(),
            corners@,
            normals@,
        ),
{
    match validate(&msg) {
        Ok(()) => {
            let plane_desc = PlaneDescriptor::from(msg.plane_descriptor.unwrap());
            let mesh_uid = state.add_plane(&plane_desc, corners, normals);
            Ok(d3rpc::AddItemResponse { id: mesh_uid as u64 })
        },
        Err(status) => Err(status),
    }
}

/// Adds a cuboid, whose corners lie at `corners` and whose twelve triangles have the unit
/// normals `normals`.
pub fn add_cuboid(
    state: &mut State,
    msg: d3rpc::AddCuboidRequest,
    corners: &[Vec3; 8],
    normals: &[Vec3; 12],
) -> (out: Result<d3rpc::AddItemResponse, Status>)
    requires
        old(state).wf(),
        old(state).mesh_state.next_uid < usize::MAX,
    ensures
        final(state).wf(),
        out is Ok <==> msg.valid(),
        out is Err ==> rejected(*old(state), *final(state), out, d3rpc::AddCuboidRequest::reason()),
        out matches Ok(response) ==> response.id == old(state).mesh_state.next_uid && grown(
            *old(state),
            *final(state),
            response.id as usize,
        ) && shows_cuboid(
            final(state).mesh_state.meshes@[response.id as usize],
            msg.cuboid_descriptor->0.shape(),
            corners@,
            normals@,
        ),
{
    match validate(&msg) {
        Ok(()) => {
            let cuboid_desc = CuboidDescriptor::from(msg.cuboid_descriptor.unwrap());
            let mesh_uid = state.add_cuboid(&cuboid_desc, corners, normals);
            Ok(d3rpc::AddItemResponse { id: mesh_uid as u64 })
        },
        Err(status) => Err(status),
    }
}

/// Adds a cylinder, whose side is drawn through the points `side`, two for each side of
/// the cylinder, and which, unless it is open, is closed by the two discs `caps`.
pub fn add_cylinder(
    state: &mut State,
    msg: d3rpc::AddCylinderRequest,
    side: &[(Vec3, Vec3)],
    caps: Option<(Mesh, Mesh)>,
) -> (out: Result<d3rpc::AddItemResponse, Status>)
    requires
        old(state).wf(),
        old(state).mesh_state.next_uid < usize::MAX,
        msg.valid() ==> side@.len() == 2 * msg.cylinder_descriptor->0.num_sides,
        msg.valid() ==> 2 * msg.cylinder_descriptor->0.num_sides <= u32::MAX,
        msg.valid() ==> (caps is Some <==> !msg.cylinder_descriptor->0.open),
        msg.valid() ==> (caps matches Some((lower, upper)) ==> fitting(
            msg.cylinder_descriptor->0.shape(),
            lower,
            upper,
        )),
    ensures
        final(state).wf(),
        out is Ok <==> msg.valid(),
        out is Err ==> rejected(*old(state), *final(state), out, d3rpc::AddCylinderRequest::reason()),
        out matches Ok(response) ==> response.id == old(state).mesh_state.next_uid && grown(
            *old(state),
            *final(state),
            response.id as usize,
        ) && shows_cylinder(
            final(state).mesh_state.meshes@[response.id as usize],
            msg.cylinder_descriptor->0.shape(),
            side@,
            caps,
        ),
{
    match validate(&msg) {
        Ok(()) => {
            let cylinder_desc = CylinderDescriptor::from(msg.cylinder_descriptor.unwrap());
            let mesh_uid = state.add_cylinder(&cylinder_desc, side, caps);
            Ok(d3rpc::AddItemResponse { id: mesh_uid as u64 })
        },
        Err(status) => Err(status),
    }
}

/// Adds a disc, whose rim goes through the points `rim`: as many as the disc has sides.
pub fn add_disc(
    state: &mut State,
    msg: d3rpc::AddDiscRequest,
    rim: &[Vec3],
) -> (out: Result<d3rpc::AddItemResponse, Status>)
    requires
        old(state).wf(),
        old(state).mesh_state.next_uid < usize::MAX,
        msg.valid() ==> rim@.len() == msg.disc_descriptor->0.num_sides,
        msg.valid() ==> msg.disc_descriptor->0.num_sides < u32::MAX,
    ensures
        final(state).wf(),
        out is Ok <==> msg.valid(),
        out is Err ==> rejected(*old(state), *final(state), out, d3rpc::AddDiscRequest::reason()),
        out matches Ok(response) ==> response.id == old(state).mesh_state.next_uid && grown(
            *old(state),
            *final(state),
            response.id as usize,
        ) && shows_disc(
            final(state).mesh_state.meshes@[response.id as usize],
            msg.disc_descriptor->0.shape(),
            rim@,
        ),
{
    match validate(&msg) {
        Ok(()) => {
            let disc_desc = DiscDescriptor::from(msg.disc_descriptor.unwrap());
            let mesh_uid = state.add_disc(&disc_desc, rim);
            Ok(d3rpc::AddItemResponse { id: mesh_uid as u64 })
        },
        Err(status) => Err(status),
    }
}

/// Adds a sphere, drawn through the points `grid`, given row by row from pole to pole:
/// one for each crossing of a row and a column, and no more than a mesh can count.
pub fn add_sphere(
    state: &mut State,
    msg: d3rpc::AddSphereRequest,
    grid: &[(Vec3, Vec3)],
) -> (out: Result<d3rpc::AddItemResponse, Status>)
    requires
        old(state).wf(),
        old(state).mesh_state.next_uid < usize::MAX,
        msg.valid() ==> grid@.len() == msg.sphere_descriptor->0.n_lat * msg.sphere_descriptor->0.n_long,
        msg.valid() ==> msg.sphere_descriptor->0.n_lat * msg.sphere_descriptor->0.n_long <= u32::MAX,
    ensures
        final(state).wf(),
        out is Ok <==> msg.valid(),
        out is Err ==> rejected(*old(state), *final(state), out, d3rpc::AddSphereRequest::reason()),
        out matches Ok(response) ==> response.id == old(state).mesh_state.next_uid && grown(
            *old(state),
            *final(state),
            response.id as usize,
        ) && shows_sphere(
            final(state).mesh_state.meshes@[response.id as usize],
            msg.sphere_descriptor->0.shape(),
            grid@,
        ),
{
    match validate(&msg) {
        Ok(()) => {
            let sphere_desc = SphereDescriptor::from(msg.sphere_descriptor.unwrap());
            let mesh_uid = state.add_sphere(&sphere_desc, grid);
            Ok(d3rpc::AddItemResponse { id: mesh_uid as u64 })
        },
        Err(status) => Err(status),
    }
}

/// Adds three axes, whose arms reach from `ends[0]` to `ends[1]`, from `ends[2]` to
/// `ends[3]` and from `ends[4]` to `ends[5]`.
pub fn add_axes(
    state: &mut State,
    msg: d3rpc::AddAxesRequest,
    ends: &[Vec3; 6],
) -> (out: Result<d3rpc::AddItemResponse, Status>)
    requires
        old(state).wf(),
        old(state).mesh_state.next_uid < usize::MAX,
    ensures
        final(state).wf(),
        out is Ok <==> msg.valid(),
        out is Err ==> rejected(*old(state), *final(state), out, d3rpc::AddAxesRequest::reason()),
        out matches Ok(response) ==> response.id == old(state).mesh_state.next_uid && grown(
            *old(state),
            *final(state),
            response.id as usize,
        ) && shows_axes(final(state).mesh_state.meshes@[response.id as usize], ends@),
{
    match validate(&msg) {
        Ok(()) => {
            let axes_desc = AxesDescriptor::from(msg.axes_descriptor.unwrap());
            let mesh_uid = state.add_axes(ends);
            Ok(d3rpc::AddItemResponse { id: mesh_uid as u64 })
        },
        Err(status) => Err(status),
    }
}

/// Adds a mesh that the client has made itself.
pub fn add_mesh(state: &mut State, msg: d3rpc::AddMeshRequest) -> (out: Result<
    d3rpc::AddItemResponse,
    Status,
>)
    requires
        old(state).wf(),
        old(state).mesh_state.next_uid < usize::MAX,
    ensures
        final(state).wf(),
        out is Ok <==> msg.valid(),
        out matches Err(status) ==> status.code == Code::InvalidArgument && status.message@
            == d3rpc::AddMeshRequest::reason() && *final(state) == *old(state),
        out matches Ok(response) ==> response.id == old(state).mesh_state.next_uid && added(
            *old(state),
            *final(state),
            Mesh {
                vertices: msg.mesh_descriptor->0.vertices,
                indices: msg.mesh_descriptor->0.indices,
                cell_type: crate::common::CellType::of_code(
                    msg.mesh_descriptor->0.cell_type as int,
                ),
                uid: 0,
                phant: std::marker::PhantomData,
            },
            response.id as usize,
        ),
{
    match validate(&msg) {
        Ok(()) => {
            let mesh = Mesh::from(msg.mesh_descriptor.unwrap());
            let mesh_uid = state.add_mesh(mesh);
            Ok(d3rpc::AddItemResponse { id: mesh_uid as u64 })
        },
        Err(status) => Err(status),
    }
}

/// Removes all meshes from the scene.
pub fn clear(state: &mut State, msg: d3rpc::ClearRequest) -> (out: Result<
    d3rpc::ClearResponse,
    Status,
>)
    requires
        old(state).wf(),
    ensures
        final(state).wf(),
        out is Ok,
        final(state).mesh_state.meshes@ == Map::<usize, Mesh>::empty(),
        final(state).mesh_state.next_uid == old(state).mesh_state.next_uid,
        final(state).view_state == old(state).view_state,
        final(state).wgpu_state == old(state).wgpu_state,
{
    state.clear_meshes();
    Ok(d3rpc::ClearResponse {  })
}

/// Answers a request to stop the service, given how sending the shutdown signal went.
pub fn kill_server(msg: d3rpc::KillServerRequest, sent: Result<(), String>) -> (out: Result<
    d3rpc::KillServerResponse,
    Status,
>)
    ensures
        out is Ok <==> sent is Ok,
        out matches Err(status) ==> status.code == Code::Internal && status.message@
            == "Failed to send shutdown signal due to error: "@ + sent->Err_0@,
{
    match shutdown_status(sent) {
        Ok(()) => Ok(d3rpc::KillServerResponse {  }),
        Err(status) => Err(status),
    }
}

} // verus!
