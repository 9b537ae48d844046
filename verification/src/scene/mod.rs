//! The parts of the scene that do not depend on the number of dimensions.
pub mod cache;
pub mod mesh;
pub mod service;
pub mod state;
pub mod store;

pub use cache::WgpuState;
pub use mesh::{MeshCore, VertexCore, VertexViewCore};
pub use state::{StateCore, ViewStateCore};
pub use store::MeshState;
