//! The spatial viewer.
pub mod camera;
pub mod mesh;
pub mod rpc;
pub mod shapes;
pub mod state;
pub mod vertex;

pub use mesh::{
    AxesDescriptor, CuboidDescriptor, CylinderDescriptor, DiscDescriptor, LineDescriptor, Mesh,
    PlaneDescriptor, SphereDescriptor, TriangleDescriptor,
};
pub use rpc::Client3D;
pub use state::{State, State3D};
