//! Scene state and resource bookkeeping for a viewer of geometric primitives.
//!
//! Clients add lines, polygons, solids and raw meshes to a scene through a service while a
//! user moves the camera with mouse and keyboard. This crate holds the state of that
//! scene and every decision taken on it: the store of meshes and their identifiers, the
//! input that awaits the next frame and the camera step it turns into, the record of the
//! buffers that are resident on the graphics device and what has to change there per
//! frame, the checks on requests, and the rules of startup and shutdown. It performs no
//! input or output and no real-number arithmetic: the window, the device and the
//! network are driven by its caller, which carries out what this crate decides.
pub mod app;
pub mod common;
pub mod d2;
pub mod d3;
pub mod events;
pub mod scene;

pub use common::{CellType, Color, Validated, Vec2, Vec3};
