//! Verified core of a chunked voxel renderer.
//!
//! The library holds the logic that drives a frame-presentation cycle:
//! meshing a voxel chunk into GPU-ready vertices, camera and projection
//! transforms over exact rational arithmetic, the acquire/submit/present
//! state machine with its failure classification, swapchain and queue
//! selection policy, frame pacing, and a hierarchical timing report.
//! Everything that talks to a window or a graphics device lives outside,
//! in a thin shell that feeds this library plain values.

pub mod benchmark;
pub mod camera;
pub mod cg;
pub mod chunk;
pub mod controller;
pub mod framerate;
pub mod key_input;
pub mod mat;
pub mod mesher;
pub mod pipeline;
pub mod quaternion;
pub mod queue;
pub mod rat;
pub mod scene;
pub mod scheduler;
pub mod swapchain;
pub mod vec;
pub mod voxel;
