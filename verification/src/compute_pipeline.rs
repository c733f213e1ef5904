//! The offscreen compute stage.
//!
//! The stage owns a pipeline and an output texture sized exactly to the
//! current surface, and dispatches one workgroup per 16 by 16 pixel tile.
//! The dispatch grid is rounded up, so surfaces whose sides are not a
//! multiple of the tile are still covered in full; the GPU resources behind
//! the model live in the unverified shell.

use vstd::prelude::*;

verus! {

/// Side of the square pixel tile one workgroup covers.
pub const TILE_SIZE: u32 = 16;

/// The identity of a texture view. A view handed to the render stage is a
/// read-only capability; a rebuild of the compute stage makes a view with a
/// fresh identity, and every binding that still names an old identity is
/// stale and must be rebuilt.
#[derive(Clone, Copy, PartialEq, Eq, Structural, Debug)]
pub struct TextureViewHandle {
    pub id: u64,
}

/// The compute stage: its output texture's dimensions and the identity of
/// the view onto that texture.
#[derive(Clone, Copy, PartialEq, Eq, Structural, Debug)]
pub struct ComputePipeline {
    pub width: u32,
    pub height: u32,
    pub view: TextureViewHandle,
}

/// Number of tiles needed to cover `extent` pixels: `extent / 16`, rounded
/// up so that no border pixels are left unwritten.
pub open spec fn tiles(extent: u32) -> u32 {
    (((extent as int) + (TILE_SIZE - 1)) / (TILE_SIZE as int)) as u32
}

impl ComputePipeline {
    /// Builds the stage: the output texture takes the given dimensions and
    /// its view the given identity.
    pub fn new(width: u32, height: u32, view: TextureViewHandle) -> (p: ComputePipeline)
        requires
            width > 0,
            height > 0,
        ensures
            p == (ComputePipeline { width, height, view }),
    {
        ComputePipeline { width, height, view }
    }

    /// The workgroup counts of the dispatch that covers the whole output
    /// texture: one workgroup per 16 by 16 tile, rounded up, one layer deep.
    pub fn compute(&self) -> (d: (u32, u32, u32))
        ensures
            d.0 == tiles(self.width),
            d.1 == tiles(self.height),
            d.2 == 1,
    {
        let x = self.width / TILE_SIZE + if self.width % TILE_SIZE != 0 { 1 } else { 0 };
        let y = self.height / TILE_SIZE + if self.height % TILE_SIZE != 0 { 1 } else { 0 };
        proof {
            lemma_div_round_up(self.width);
            lemma_div_round_up(self.height);
        }
        (x, y, 1)
    }

    /// The view onto the output texture, for the render stage to bind.
    pub fn get_texture_view(&self) -> (v: TextureViewHandle)
        ensures
            v == self.view,
    {
        self.view
    }
}

/// Rounding a division up equals truncating it and adding one for a
/// non-zero remainder.
proof fn lemma_div_round_up(n: u32)
    ensures
        ((n as int) + 15) / 16 == (n as int) / 16 + if (n as int) % 16 != 0 {
            1int
        } else {
            0int
        },
{
    assert(((n as int) + 15) / 16 == (n as int) / 16 + if (n as int) % 16 != 0 {
        1int
    } else {
        0int
    }) by (nonlinear_arith);
}

} // verus!
