//! The service through which clients add shapes to the spatial scene.
pub mod common;
pub mod d3rpc;
pub mod rpc_client;
pub mod rpc_server;

pub use rpc_client::Client3D;
