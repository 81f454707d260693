//! Core of a kiosk-style QR check-in flow: a camera feed is periodically
//! sampled into a luminance raster, QR grids are detected and decoded, and
//! successful decodes drive a linear check-in state machine.
//!
//! The host platform (camera, canvas, timers, presentation) lives outside this
//! crate; it hands frames in as data-URL bytes and receives the session state,
//! the decoded payload and any transient error notice back.

pub mod laws;
pub mod pipeline;
pub mod raster;
pub mod state;
