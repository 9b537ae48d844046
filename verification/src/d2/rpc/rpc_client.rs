//! The requests that a client of the planar viewer's service sends.
//!
//! A client turns each shape into the message that describes it and signs the request
//! with its name. Sending the request and waiting for the answer is left to the caller.
use super::d2rpc;
use crate::app::{decimal, decimal_text};
use crate::common::Validated;
use crate::d2::mesh::{AxesDescriptor, CircleDescriptor, LineDescriptor, Mesh, SquareDescriptor};
use vstd::prelude::*;
use vstd::std_specs::convert::FromSpec;
use vstd::string::StringExecFns;

verus! {

/// A client of the planar viewer's service on a port of the local host.
#[derive(Debug)]
pub struct Client2D {
    pub client_name: String,
    pub port: usize,
}

impl Client2D {
    /// A client for the service on `port`.
    pub fn new(port: usize) -> (client: Self)
        ensures
            client.client_name@ == "client2d"@,
            client.port == port,
    {
        Client2D { client_name: "client2d".to_owned(), port }
    }

    /// The address at which the service is reached.
    pub fn address(&self) -> (url: String)
        ensures
            url@ == "http://127.0.0.1:"@ + decimal(self.port as nat),
    {
        let digits = decimal_text(self.port as u64);
        "http://127.0.0.1:".to_owned().concat(digits.as_str())
    }

    /// The request to add a pair of axes.
    pub fn add_axes(&self, axes_desc: AxesDescriptor) -> (request: d2rpc::AddAxesRequest)
        ensures
            request.client_name == self.client_name,
            request.axes_descriptor == Some(d2rpc::AxesDescriptor::from_spec(axes_desc)),
            request.axes_descriptor->0.shape() == axes_desc,
    {
        d2rpc::AddAxesRequest {
            client_name: self.client_name.clone(),
            axes_descriptor: Some(d2rpc::AxesDescriptor::from(axes_desc)),
        }
    }

    /// The request to add a line segment.
    pub fn add_line(&self, line_desc: LineDescriptor) -> (request: d2rpc::AddLineRequest)
        ensures
            request.client_name == self.client_name,
            request.line_descriptor == Some(d2rpc::LineDescriptor::from_spec(line_desc)),
            request.valid(),
    {
        d2rpc::AddLineRequest {
            client_name: self.client_name.clone(),
            line_descriptor: Some(d2rpc::LineDescriptor::from(line_desc)),
        }
    }

    /// The request to add a square.
    pub fn add_square(&self, square_desc: SquareDescriptor) -> (request: d2rpc::AddSquareRequest)
        ensures
            request.client_name == self.client_name,
            request.square_descriptor == Some(d2rpc::SquareDescriptor::from_spec(square_desc)),
    {
        d2rpc::AddSquareRequest {
            client_name: self.client_name.clone(),
            square_descriptor: Some(d2rpc::SquareDescriptor::from(square_desc)),
        }
    }

    /// The request to add a circle.
    pub fn add_circle(&self, circle_desc: CircleDescriptor) -> (request: d2rpc::AddCircleRequest)
        ensures
            request.client_name == self.client_name,
            request.circle_descriptor == Some(d2rpc::CircleDescriptor::from_spec(circle_desc)),
    {
        d2rpc::AddCircleRequest {
            client_name: self.client_name.clone(),
            circle_descriptor: Some(d2rpc::CircleDescriptor::from(circle_desc)),
        }
    }

    /// The request to add a mesh.
    pub fn add_mesh(&self, mesh: Mesh) -> (request: d2rpc::AddMeshRequest)
        ensures
            request.client_name == self.client_name,
            request.mesh_descriptor matches Some(d) && d.vertices == mesh.vertices && d.indices
                == mesh.indices && d.cell_type == mesh.cell_type.code(),
    {
        d2rpc::AddMeshRequest {
            client_name: self.client_name.clone(),
            mesh_descriptor: Some(d2rpc::MeshDescriptor::from(mesh)),
        }
    }

    /// The request to remove all meshes.
    pub fn clear(&self) -> (request: d2rpc::ClearRequest)
        ensures
            request.client_name == self.client_name,
    {
        d2rpc::ClearRequest { client_name: self.client_name.clone() }
    }

    /// The request to stop the service.
    pub fn kill_server(&self) -> (request: d2rpc::KillServerRequest)
        ensures
            request.client_name == self.client_name,
    {
        d2rpc::KillServerRequest { client_name: self.client_name.clone() }
    }

    /// The identifier that the service answered with.
    pub fn uid(response: d2rpc::AddItemResponse) -> (uid: usize)
        ensures
            uid == response.id as usize,
    {
        #[verifier::truncate]
        (response.id as usize)
    }
}

} // verus!
