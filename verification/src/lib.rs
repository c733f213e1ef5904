//! Frame-orchestration core for a compute-then-render GPU loop.
//!
//! The crate models the device/surface lifecycle of a renderer that runs an
//! offscreen compute pass into a private texture and then a screen-space
//! render pass that samples that texture, with a debug text overlay on top.
//! It owns every decision the loop makes: which surface format to use, how
//! large the offscreen texture must be, how many workgroups a dispatch needs,
//! when the frame-rate sample may change, and how acquisition errors are
//! classified and recovered from. The GPU itself, the window system and the
//! glyph rasterizer are collaborators driven by a thin unverified shell.

pub mod compute_pipeline;
pub mod config;
pub mod context;
pub mod debug;
pub mod render_pipeline;
pub mod text;
