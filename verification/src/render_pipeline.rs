//! The screen-space render stage.
//!
//! The stage draws a full-surface shape that samples the compute stage's
//! output texture into the presented frame. Its only resource binding is
//! the input view handed over at construction: the binding is immutable, so
//! the stage must be rebuilt, never patched, whenever that view's identity
//! changes.

use vstd::prelude::*;

use crate::compute_pipeline::TextureViewHandle;
use crate::config::TextureFormat;

verus! {

/// The render stage: the color format it writes and the identity of the
/// texture view its one binding samples.
#[derive(Clone, Copy, PartialEq, Eq, Structural, Debug)]
pub struct RenderPipeline {
    pub color_format: TextureFormat,
    pub input_view: TextureViewHandle,
}

impl RenderPipeline {
    /// Builds the stage against the surface's color format, binding the
    /// supplied input view.
    pub fn new(color_format: TextureFormat, input_view: TextureViewHandle) -> (p: RenderPipeline)
        ensures
            p == (RenderPipeline { color_format, input_view }),
    {
        RenderPipeline { color_format, input_view }
    }

    /// The view the draw call samples: always the one bound at construction.
    pub fn render(&self) -> (v: TextureViewHandle)
        ensures
            v == self.input_view,
    {
        self.input_view
    }
}

} // verus!
