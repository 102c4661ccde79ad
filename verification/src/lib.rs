//! Engine core of a GPU-resident reaction-diffusion simulation.
//!
//! The crate holds everything the simulation decides on the host: the shape
//! and initial contents of the two grids, the byte layout of the uniform
//! records, the ping-pong protocol between the grids, the filter on shader
//! change notifications, the mapping from pointer positions to grid space,
//! and the order of the steps of one redraw. Talking to the device, the
//! window and the file system is left to the caller, which hands in plain
//! values and carries out what the functions here return.
//!
//! Real numbers are never held as floating-point values. A value the device
//! reads as an IEEE-754 single is carried as its 32-bit pattern, and a
//! computed grid coordinate is an exact fraction.

pub mod gpu_resources;
pub mod grid;
pub mod input;
pub mod rd_system;
pub mod shader_watcher;
pub mod state;
pub mod uniforms;

