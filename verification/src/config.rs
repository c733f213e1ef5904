//! Surface capabilities and the mutable surface configuration.
//!
//! The presentable surface advertises a capability set (pixel formats,
//! present modes, alpha modes). The configuration picks the first
//! sRGB-encoded format, falling back to the first advertised format when
//! none is sRGB, and takes the first advertised present and alpha mode.

use vstd::prelude::*;

verus! {

/// A pixel format as the configuration logic sees it: an opaque code that
/// identifies the format to the GPU layer, and whether it is sRGB-encoded.
#[derive(Clone, Copy, PartialEq, Eq, Structural, Debug)]
pub struct TextureFormat {
    pub code: u32,
    pub srgb: bool,
}

/// The capability set advertised by a presentable surface. Each list is
/// ordered as the surface advertised it; every list is non-empty on any
/// surface a device can present to.
#[derive(Debug)]
pub struct SurfaceCaps {
    pub formats: Vec<TextureFormat>,
    pub present_modes: Vec<u32>,
    pub alpha_modes: Vec<u32>,
}

/// The mutable configuration of the presentable surface. Width and height
/// follow resize events; the rest is chosen once at initialization.
#[derive(Clone, Copy, PartialEq, Eq, Structural, Debug)]
pub struct SurfaceConfig {
    pub format: TextureFormat,
    pub width: u32,
    pub height: u32,
    pub present_mode: u32,
    pub alpha_mode: u32,
    pub max_frame_latency: u32,
}

/// The first sRGB-encoded format of the advertised list, if any.
pub open spec fn first_srgb(s: Seq<TextureFormat>) -> Option<TextureFormat>
    decreases s.len(),
{
    if s.len() == 0 {
        None
    } else if s[0].srgb {
        Some(s[0])
    } else {
        first_srgb(s.skip(1))
    }
}

/// The format the configuration uses: the first sRGB-encoded format,
/// falling back to the first advertised format.
pub open spec fn chosen_format(s: Seq<TextureFormat>) -> TextureFormat
    recommends
        s.len() > 0,
{
    match first_srgb(s) {
        Some(f) => f,
        None => s[0],
    }
}

/// Picks the surface format: the first sRGB-encoded format the surface
/// advertises, or the first advertised format when none is sRGB.
pub fn choose_format(formats: &Vec<TextureFormat>) -> (f: TextureFormat)
    requires
        formats@.len() > 0,
    ensures
        f == chosen_format(formats@),
        f.srgb || f == formats@[0],
        exists|i: int| 0 <= i < formats@.len() && f == formats@[i],
{
    let n = formats.len();
    let mut i: usize = 0;
    proof {
        assert(formats@.skip(0) =~= formats@);
    }
    while i < n
        invariant
            n == formats@.len(),
            0 <= i <= n,
            forall|j: int| 0 <= j < i ==> !formats@[j].srgb,
            first_srgb(formats@) == first_srgb(formats@.skip(i as int)),
        decreases n - i,
    {
        if formats[i].srgb {
            proof {
                assert(formats@.skip(i as int)[0] == formats@[i as int]);
            }
            return formats[i];
        }
        proof {
            assert(formats@.skip(i as int).skip(1) =~= formats@.skip(i as int + 1));
            assert(formats@.skip(i as int)[0] == formats@[i as int]);
        }
        i = i + 1;
    }
    proof {
        assert(formats@.skip(n as int).len() == 0);
    }
    formats[0]
}

impl SurfaceConfig {
    /// A configuration is valid only for a surface with positive area: the
    /// GPU refuses zero-sized surfaces and textures.
    pub open spec fn valid_size(self) -> bool {
        self.width > 0 && self.height > 0
    }

    /// Builds the initial configuration from the advertised capability set
    /// and the window's drawable size, as done once at startup.
    pub fn from_caps(caps: &SurfaceCaps, width: u32, height: u32) -> (c: SurfaceConfig)
        requires
            caps.formats@.len() > 0,
            caps.present_modes@.len() > 0,
            caps.alpha_modes@.len() > 0,
            width > 0,
            height > 0,
        ensures
            c.format == chosen_format(caps.formats@),
            c.width == width,
            c.height == height,
            c.present_mode == caps.present_modes@[0],
            c.alpha_mode == caps.alpha_modes@[0],
            c.max_frame_latency == 2,
            c.valid_size(),
    {
        SurfaceConfig {
            format: choose_format(&caps.formats),
            width,
            height,
            present_mode: caps.present_modes[0],
            alpha_mode: caps.alpha_modes[0],
            max_frame_latency: 2,
        }
    }
}

} // verus!
