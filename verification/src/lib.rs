//! Radiance transport core of a real-time 2D global-illumination renderer.
//!
//! The renderer rasterizes a scene of colored triangles into screen-sized
//! G-buffers and then simulates multi-bounce light transport across the
//! screen plane along a discretized set of tracing directions. This crate
//! holds the part of that pipeline that is worth reasoning about precisely:
//!
//! * the direction discretizer, which turns a requested direction count into
//!   per-direction scan parameters (tracing axis, scan orientation, folded
//!   angle);
//! * the workgroup planner, which tiles each direction's possibly skewed scan
//!   domain into fixed-width dispatch units;
//! * the bounce orchestrator, which sequences the per-frame stage schedule
//!   and the accumulation-buffer seeding policy.
//!
//! Everything that talks to the GPU or the window system lives outside this
//! crate and only consumes the plain values produced here.

pub mod direction;
pub mod orchestrator;
pub mod plan;
pub mod settings;

use vstd::prelude::*;

verus! {

} // verus!
