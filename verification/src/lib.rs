//! Resource lifecycle and frame-submission engine for a GPU renderer.
//!
//! The library holds the verified core of the engine: planning the
//! surface-dependent resource set (swapchain extent, image count, present
//! mode), selecting a physical adapter and a memory type, the typed buffer
//! model with direct and staged writes, the fence-guarded command-submission
//! protocol, and the per-frame state machine that decides when the resource
//! set must be rebuilt. The unverified shell around it performs the actual
//! driver calls and feeds their outcomes back in as plain values.

pub mod adapter;
pub mod buffer;
pub mod frame;
pub mod memory;
pub mod pipeline;
pub mod resources;
pub mod swapchain;
pub mod sync;
