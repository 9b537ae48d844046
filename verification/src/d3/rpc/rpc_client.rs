//! The requests that a client of the spatial viewer's service sends.
//!
//! A client turns each shape into the message that describes it and signs the request
//! with its name. Sending the request and waiting for the answer is left to the caller.
use super::d3rpc;
use crate::app::{decimal, decimal_text};
use crate::d3::mesh::{
    AxesDescriptor, CuboidDescriptor, CylinderDescriptor, DiscDescriptor, LineDescriptor, Mesh,
    PlaneDescriptor, SphereDescriptor, TriangleDescriptor,
};
use vstd::prelude::*;
use vstd::std_specs::convert::FromSpec;
use vstd::string::StringExecFns;

verus! {

/// A client of the spatial viewer's service on a port of the local host.
#[derive(Debug)]
pub struct Client3D {
    pub client_name: String,
    pub port: usize,
}

impl Client3D {
    /// A client for the service on `port`.
    pub fn new(port: usize) -> (client: Self)
        ensures
            client.client_name@ == "client3d"@,
            client.port == port,
    {
        Client3D { client_name: "client3d".to_owned(), port }
    }

    /// The address at which the service is reached.
    pub fn address(&self) -> (url: String)
        ensures
            url@ == "http://127.0.0.1:"@ + decimal(self.port as nat),
    {
        let digits = decimal_text(self.port as u64);
        "http://127.0.0.1:".to_owned().concat(digits.as_str())
    }

    /// The request to add a line segment.
    pub fn add_line(&self, line_desc: LineDescriptor) -> (request: d3rpc::AddLineRequest)
        ensures
            request.client_name == self.client_name,
            request.line_descriptor == Some(d3rpc::LineDescriptor::from_spec(line_desc)),
    {
        d3rpc::AddLineRequest {
            client_name: self.client_name.clone(),
            line_descriptor: Some(d3rpc::LineDescriptor::from(line_desc)),
        }
    }

    /// The request to add a triangle.
    pub fn add_triangle(&self, triangle_desc: TriangleDescriptor) -> (request: d3rpc::AddTriangleRequest)
        ensures
            request.client_name == self.client_name,
            request.triangle_descriptor == Some(d3rpc::TriangleDescriptor::from_spec(triangle_desc)),
    {
        d3rpc::AddTriangleRequest {
            client_name: self.client_name.clone(),
            triangle_descriptor: Some(d3rpc::TriangleDescriptor::from(triangle_desc)),
        }
    }

    /// The request to add a plane.
    pub fn add_plane(&self, plane_desc: PlaneDescriptor) -> (request: d3rpc::AddPlaneRequest)
        ensures
            request.client_name == self.client_name,
            request.plane_descriptor == Some(d3rpc::PlaneDescriptor::from_spec(plane_desc)),
    {
        d3rpc::AddPlaneRequest {
            client_name: self.client_name.clone(),
            plane_descriptor: Some(d3rpc::PlaneDescriptor::from(plane_desc)),
        }
    }

    /// The request to add a cuboid.
    pub fn add_cuboid(&self, cuboid_desc: CuboidDescriptor) -> (request: d3rpc::AddCuboidRequest)
        ensures
            request.client_name == self.client_name,
            request.cuboid_descriptor == Some(d3rpc::CuboidDescriptor::from_spec(cuboid_desc)),
    {
        d3rpc::AddCuboidRequest {
            client_name: self.client_name.clone(),
            cuboid_descriptor: Some(d3rpc::CuboidDescriptor::from(cuboid_desc)),
        }
    }

    /// The request to add a cylinder.
    pub fn add_cylinder(&self, cylinder_desc: CylinderDescriptor) -> (request: d3rpc::AddCylinderRequest)
        ensures
            request.client_name == self.client_name,
            request.cylinder_descriptor == Some(d3rpc::CylinderDescriptor::from_spec(cylinder_desc)),
    {
        d3rpc::AddCylinderRequest {
            client_name: self.client_name.clone(),
            cylinder_descriptor: Some(d3rpc::CylinderDescriptor::from(cylinder_desc)),
        }
    }

    /// The request to add a disc.
    pub fn add_disc(&self, disc_desc: DiscDescriptor) -> (request: d3rpc::AddDiscRequest)
        ensures
            request.client_name == self.client_name,
            request.disc_descriptor == Some(d3rpc::DiscDescriptor::from_spec(disc_desc)),
    {
        d3rpc::AddDiscRequest {
            client_name: self.client_name.clone(),
            disc_descriptor: Some(d3rpc::DiscDescriptor::from(disc_desc)),
        }
    }

    /// The request to add a sphere.
    pub fn add_sphere(&self, sphere_desc: SphereDescriptor) -> (request: d3rpc::AddSphereRequest)
        ensures
            request.client_name == self.client_name,
            request.sphere_descriptor == Some(d3rpc::SphereDescriptor::from_spec(sphere_desc)),
    {
        d3rpc::AddSphereRequest {
            client_name: self.client_name.clone(),
            sphere_descriptor: Some(d3rpc::SphereDescriptor::from(sphere_desc)),
        }
    }

    /// The request to add three axes.
    pub fn add_axes(&self, axes_desc: AxesDescriptor) -> (request: d3rpc::AddAxesRequest)
        ensures
            request.client_name == self.client_name,
            request.axes_descriptor == Some(d3rpc::AxesDescriptor::from_spec(axes_desc)),
    {
        d3rpc::AddAxesRequest {
            client_name: self.client_name.clone(),
            axes_descriptor: Some(d3rpc::AxesDescriptor::from(axes_desc)),
        }
    }

    /// The request to add a mesh.
    pub fn add_mesh(&self, mesh: Mesh) -> (request: d3rpc::AddMeshRequest)
        ensures
            request.client_name == self.client_name,
            request.mesh_descriptor matches Some(d) && d.vertices == mesh.vertices && d.indices
                == mesh.indices && d.cell_type == mesh.cell_type.code(),
    {
        d3rpc::AddMeshRequest {
            client_name: self.client_name.clone(),
            mesh_descriptor: Some(d3rpc::MeshDescriptor::from(mesh)),
        }
    }

    /// The request to remove all meshes.
    pub fn clear(&self) -> (request: d3rpc::ClearRequest)
        ensures
            request.client_name == self.client_name,
    {
        d3rpc::ClearRequest { client_name: self.client_name.clone() }
    }

    /// The request to stop the service.
    pub fn kill_server(&self) -> (request: d3rpc::KillServerRequest)
        ensures
            request.client_name == self.client_name,
    {
        d3rpc::KillServerRequest { client_name: self.client_name.clone() }
    }

    /// The identifier that the service answered with.
    pub fn uid(response: d3rpc::AddItemResponse) -> (uid: usize)
        ensures
            uid == response.id as usize,
    {
        #[verifier::truncate]
        (response.id as usize)
    }
}

} // verus!
