//! A per-tick terminal frame pipeline: an edge-triggered input latch, a
//! z-ordered widget compositor and the lifecycle of the terminal session.
pub mod compositor;
pub mod event_latch;
pub mod frame;
pub mod plugin;
pub mod session;
