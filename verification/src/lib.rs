//! Decision core of a compute-based voxel renderer.
//!
//! Everything that touches the graphics device lives with the caller; this
//! crate holds the rules that decide what the device is asked to do: which
//! physical device qualifies, how the presentable image chain is negotiated,
//! how frames in flight take turns, how instance slots are handed out, and in
//! what order resources are released.
pub mod container;
pub mod utility;
pub mod renderer;
