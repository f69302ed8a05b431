//! Frame-lifecycle core for a window-bound GPU presentation surface.
//!
//! The library models the state that drives one rendering loop: a surface
//! configuration with a clamped size, a "configured" flag that makes early
//! renders safe no-ops, the transient per-frame recording scope, and the
//! decision logic that turns an acquire outcome into a presented frame, a
//! reconfiguration, or a shutdown signal.  The windowing and GPU layers are
//! external collaborators; they execute the decisions made here and feed
//! the outcomes back in.

pub mod frame;
pub mod pipeline;
pub mod state;
pub mod surface;
pub mod text;
pub mod timer;
