//! The service through which clients add shapes to the planar scene.
pub mod common;
pub mod d2rpc;
pub mod rpc_client;
pub mod rpc_server;

pub use rpc_client::Client2D;
