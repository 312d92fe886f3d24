//! Core of a compute-device negotiation and kernel execution pipeline:
//! selecting the most capable compute device, planning a compute context and
//! command queue (optionally sharing state with a graphics context), assembling
//! kernel programs from source lines, planning buffer-oriented dispatches, and
//! reducing device-side profiling timestamps.
//!
//! Everything that touches the platform runtime (device enumeration, context
//! and queue creation, program builds, enqueues) happens outside this crate;
//! the functions here make every decision on plain values and carry contracts
//! for each of them.

pub mod common;
pub mod context;
pub mod device;
pub mod error;
pub mod kernel;
pub mod mesh;
pub mod profiling;
pub mod shader;
pub mod surface;
