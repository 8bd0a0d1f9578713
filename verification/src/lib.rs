//! Verified control core of a windowed triangle renderer.
//!
//! The crate models the state that drives a per-frame render loop: the
//! presentable surface's configuration and how it changes across resizes,
//! the staged construction of the one graphics pipeline, the fixed GPU
//! work recorded for every frame, and the event/recovery state machine of
//! the outer loop. The embedder owns the actual window, device and surface
//! handles and performs the GPU calls; it feeds events and surface
//! capabilities in as plain values and carries the returned actions out.

pub mod driver;
pub mod frame;
pub mod pipeline;
pub mod surface;
