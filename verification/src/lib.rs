//! A verified model of a double-buffered frame-lifecycle engine: swapchain
//! slot bookkeeping, command recording with resource-state transitions, and
//! fence-based CPU/GPU synchronization for a small ring of in-flight frames.
//!
//! The platform layer (window creation, the message pump, and the actual GPU
//! calls) lives outside this crate; it feeds events in and carries actions
//! out, while every decision the engine makes is proved here.

pub mod commands;
pub mod errors;
pub mod pump;
pub mod ring;
pub mod state;
pub mod views;
