//! Reconstruction of live entity snapshots from another process's memory.
//!
//! The library decodes entities (players, items) out of raw bytes read at
//! process-relative addresses, resolves world-space positions from a
//! hierarchical bone-transform table, and projects world-space points through
//! a camera's matrices into screen coordinates.  All scalar fields that the
//! observed process stores as 32-bit floats are carried as their raw bit
//! patterns (`u32`); the handful of rounded floating-point operations the
//! math needs is isolated in `float_bits`.
//!
//! Foreign memory is reached only through the `ForeignMemory` capability
//! (`memory`); `fake_process` is a verified in-library implementation of
//! it, good for tests and offline runs.  `unity` resolves bone chains,
//! `mappers` and `engine` decode and cache entities, and `projector` maps
//! world positions to screen points.

pub mod engine;
pub mod error;
pub mod fake_process;
pub mod layout;
pub mod mappers;
pub mod market;
pub mod text;
pub mod unity;
pub mod unitystring;
pub mod float_bits;
pub mod maths;
pub mod memory;
pub mod camera;
pub mod item;
pub mod models;
pub mod player;
pub mod projector;
pub mod world;

use vstd::prelude::*;

verus! {

} // verus!
