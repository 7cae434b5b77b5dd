//! Decision core of a small real-time renderer.
//!
//! The surrounding program owns the window, the GPU device and every raw
//! graphics-API call; this crate owns the decisions those calls depend on:
//! how a swapchain configuration is derived from a surface-capability query,
//! which queue families and memory types are chosen, and above all the
//! per-frame synchronization protocol that orders command submission against
//! presentable-image availability across several frames in flight.

pub mod devices;
pub mod frame;
pub mod memory;
pub mod swapchain;
pub mod synchronous;
