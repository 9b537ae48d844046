//! What every handler of the viewer's service does: it rejects a request that is not
//! valid without touching the scene, and otherwise changes the scene in one step and
//! answers with the identifier that was given out.
use crate::app::Lifecycle;
use crate::common::Validated;
use crate::scene::mesh::{MeshCore, VertexCore};
use crate::scene::state::{grown, StateCore, ViewStateCore};
use vstd::prelude::*;
use vstd::string::StringExecFns;

verus! {

/// The kinds of failure that the service reports.
#[derive(Clone, Copy, Debug, PartialEq, Eq, Structural)]
pub enum Code {
    /// The request was malformed; the scene was not touched.
    InvalidArgument,
    /// The service itself failed.
    Internal,
    /// The service takes no more requests; the scene was not touched.
    Unavailable,
}

/// A failure that the service reports to the client, with its reason in words.
#[derive(Debug)]
pub struct Status {
    pub code: Code,
    pub message: String,
}

impl Status {
    pub fn invalid_argument(message: &str) -> (status: Status)
        ensures
            status.code == Code::InvalidArgument,
            status.message@ == message@,
    {
        Status { code: Code::InvalidArgument, message: message.to_owned() }
    }

    pub fn internal(message: String) -> (status: Status)
        ensures
            status.code == Code::Internal,
            status.message == message,
    {
        Status { code: Code::Internal, message }
    }

    pub fn unavailable(message: &str) -> (status: Status)
        ensures
            status.code == Code::Unavailable,
            status.message@ == message@,
    {
        Status { code: Code::Unavailable, message: message.to_owned() }
    }
}

/// The scene after the mesh `mesh` was added to `before` under the identifier `uid`:
/// the mesh is stored with its geometry, the meshes that were there are as they were, and
/// nothing but the store has changed.
pub open spec fn added<V: VertexCore, W: ViewStateCore + Default>(
    before: StateCore<V, W>,
    after: StateCore<V, W>,
    mesh: MeshCore<V>,
    uid: usize,
) -> bool {
    &&& grown(before, after, uid)
    &&& after.mesh_state.meshes@[uid].vertices == mesh.vertices
    &&& after.mesh_state.meshes@[uid].indices == mesh.indices
    &&& after.mesh_state.meshes@[uid].cell_type == mesh.cell_type
}

/// A request that the service checks before it serves it.
pub trait Checked: Validated {
    /// What the client is told when the request is not valid.
    spec fn reason() -> Seq<char>;

    /// The words of `reason`.
    fn refusal() -> (text: &'static str)
        ensures
            text@ == Self::reason(),
    ;
}

/// The validation step of every handler: a request that is not valid is rejected, with
/// the reason that goes with its kind. It reads nothing but the request, so it is taken
/// before the scene is reached.
pub fn validate<R: Checked>(msg: &R) -> (out: Result<(), Status>)
    ensures
        out is Ok <==> msg.valid(),
        out matches Err(status) ==> status.code == Code::InvalidArgument && status.message@
            == R::reason(),
{
    if msg.is_valid() {
        Ok(())
    } else {
        Err(Status::invalid_argument(R::refusal()))
    }
}

/// The step before a request is served: once the service has seen the signal to shut
/// down it takes no new request, and says so.
pub fn gate(lifecycle: &Lifecycle) -> (out: Result<(), Status>)
    ensures
        out is Ok <==> lifecycle.accepting(),
        out matches Err(status) ==> status.code == Code::Unavailable && status.message@
            == "The service is shutting down"@,
{
    if lifecycle.accepts() {
        Ok(())
    } else {
        Err(Status::unavailable("The service is shutting down"))
    }
}

/// Answers a request to stop the service, given how sending the shutdown signal went:
/// the failure to send, with its reason, becomes a failure of the service.
pub fn shutdown_status(sent: Result<(), String>) -> (out: Result<(), Status>)
    ensures
        out is Ok <==> sent is Ok,
        out matches Err(status) ==> status.code == Code::Internal && status.message@
            == "Failed to send shutdown signal due to error: "@ + sent->Err_0@,
{
    match sent {
        Ok(()) => Ok(()),
        Err(e) => Err(
            Status::internal(
                "Failed to send shutdown signal due to error: ".to_owned().concat(e.as_str()),
            ),
        ),
    }
}

} // verus!
