//! The planar viewer.
pub mod camera;
pub mod mesh;
pub mod rpc;
pub mod shapes;
pub mod state;
pub mod vertex;

pub use mesh::{AxesDescriptor, CircleDescriptor, LineDescriptor, Mesh, SquareDescriptor};
pub use rpc::Client2D;
pub use state::{State, State2D};
