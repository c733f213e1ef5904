//! The debug overlay: a rolling frame-rate sample and the text it renders.
//!
//! The overlay owns one frame-rate sample (frame count, window start, last
//! computed rate) that is mutated on every presented frame and recomputed at
//! most once per sampling window. Each frame it yields two text blocks: the
//! live statistics anchored at the top left, and a static build identifier
//! anchored at the bottom left. The glyph rasterizer that turns the text
//! into draw calls is a collaborator of the unverified shell.

use vstd::prelude::*;

use crate::text::dec_rep;
use crate::text::u64_to_dec;

verus! {

/// Length of the frame-rate sampling window, in milliseconds.
pub const SAMPLE_WINDOW_MS: u64 = 500;

/// Screen anchor of the live statistics block, from the top-left corner.
pub const INFO_ANCHOR: u32 = 10;

/// Height reserved for the build-identifier line above the bottom edge.
pub const BUILD_LINE_HEIGHT: u32 = 30;

/// Text scale of both overlay blocks, in pixels.
pub const TEXT_SCALE: u32 = 26;

/// The identifier of the GPU backend the device runs on, shown in the
/// overlay's statistics block.
#[derive(Clone, Copy, PartialEq, Eq, Structural, Debug)]
pub enum Backend {
    Noop,
    Vulkan,
    Metal,
    Dx12,
    Gl,
    BrowserWebGpu,
}

/// The label the overlay prints for a backend.
pub open spec fn backend_label(b: Backend) -> Seq<char> {
    match b {
        Backend::Noop => "Noop"@,
        Backend::Vulkan => "Vulkan"@,
        Backend::Metal => "Metal"@,
        Backend::Dx12 => "Dx12"@,
        Backend::Gl => "Gl"@,
        Backend::BrowserWebGpu => "BrowserWebGpu"@,
    }
}

/// The printable name of a backend.
pub fn backend_name(b: Backend) -> (r: &'static str)
    ensures
        r@ == backend_label(b),
{
    match b {
        Backend::Noop => "Noop",
        Backend::Vulkan => "Vulkan",
        Backend::Metal => "Metal",
        Backend::Dx12 => "Dx12",
        Backend::Gl => "Gl",
        Backend::BrowserWebGpu => "BrowserWebGpu",
    }
}

/// The debug overlay's state: the rolling frame-rate sample, the backend
/// and surface size it reports, and the build identifier it prints.
#[derive(Debug)]
pub struct DebugOverlay {
    /// Last computed rate, in whole frames per second.
    pub fps: u64,
    /// Start of the current sampling window, in milliseconds.
    pub window_start_ms: u64,
    /// Frames seen since the window started.
    pub frame_count: u32,
    pub backend: Backend,
    pub width: u32,
    pub height: u32,
    pub build_id: String,
}

/// The frame counter after one more frame; it saturates rather than wraps,
/// so a clock that never advances cannot overflow it.
pub open spec fn bumped_count(c: u32) -> u32 {
    if c < u32::MAX {
        (c + 1) as u32
    } else {
        c
    }
}

/// Milliseconds elapsed since the window started; a clock reading from
/// before the window start counts as no time elapsed.
pub open spec fn elapsed_ms(o: DebugOverlay, now_ms: u64) -> u64 {
    if now_ms >= o.window_start_ms {
        (now_ms - o.window_start_ms) as u64
    } else {
        0u64
    }
}

/// The rate over one sampling window, truncated to whole frames per second.
pub open spec fn rate_of(count: u32, elapsed: u64) -> u64
    recommends
        elapsed > 0,
{
    ((count as int) * 1000 / (elapsed as int)) as u64
}

/// One recorded frame: the counter grows; once the sampling window has
/// elapsed, the rate is recomputed and the window restarts at `now_ms`.
pub open spec fn record_spec(o: DebugOverlay, now_ms: u64) -> DebugOverlay {
    let count = bumped_count(o.frame_count);
    let elapsed = elapsed_ms(o, now_ms);
    if elapsed >= SAMPLE_WINDOW_MS {
        DebugOverlay {
            fps: rate_of(count, elapsed),
            window_start_ms: now_ms,
            frame_count: 0,
            backend: o.backend,
            width: o.width,
            height: o.height,
            build_id: o.build_id,
        }
    } else {
        DebugOverlay {
            fps: o.fps,
            window_start_ms: o.window_start_ms,
            frame_count: count,
            backend: o.backend,
            width: o.width,
            height: o.height,
            build_id: o.build_id,
        }
    }
}

/// The statistics block: rate, backend and surface size, one per line.
pub open spec fn info_label(fps: u64, backend: Backend, width: u32, height: u32) -> Seq<char> {
    "FPS: "@ + dec_rep(fps as nat) + "\nBackend: "@ + backend_label(backend) + "\nSurface: "@
        + dec_rep(width as nat) + "x"@ + dec_rep(height as nat)
}

/// One frame of overlay output: the two text blocks with their screen
/// anchors and scale, ready for the glyph rasterizer.
#[derive(Debug)]
pub struct OverlayFrame {
    pub info_text: String,
    pub info_x: u32,
    pub info_y: u32,
    pub build_text: String,
    pub build_x: u32,
    pub build_y: u32,
    pub scale: u32,
}

/// Vertical anchor of the build-identifier block: one line above the bottom
/// edge, clamped for surfaces shorter than the line.
pub open spec fn build_anchor_y(height: u32) -> u32 {
    if height >= BUILD_LINE_HEIGHT {
        (height - BUILD_LINE_HEIGHT) as u32
    } else {
        0u32
    }
}

impl DebugOverlay {
    /// A fresh overlay: zero rate, an empty window starting now.
    pub fn new(backend: Backend, width: u32, height: u32, build_id: String, now_ms: u64) -> (o:
        DebugOverlay)
        ensures
            o.fps == 0,
            o.window_start_ms == now_ms,
            o.frame_count == 0,
            o.backend == backend,
            o.width == width,
            o.height == height,
            o.build_id == build_id,
    {
        DebugOverlay { fps: 0, window_start_ms: now_ms, frame_count: 0, backend, width, height, build_id }
    }

    /// Follows a surface resize: only the reported size changes.
    pub fn handle_resize(&mut self, width: u32, height: u32)
        ensures
            *final(self) == (DebugOverlay {
                width,
                height,
                fps: old(self).fps,
                window_start_ms: old(self).window_start_ms,
                frame_count: old(self).frame_count,
                backend: old(self).backend,
                build_id: old(self).build_id,
            }),
    {
        self.width = width;
        self.height = height;
    }

    /// Records one presented frame and yields the text blocks to draw: the
    /// statistics block at the top-left anchor and the build identifier one
    /// line above the bottom edge.
    pub fn render(&mut self, now_ms: u64) -> (f: OverlayFrame)
        ensures
            *final(self) == record_spec(*old(self), now_ms),
            f.info_text@ == info_label(
                final(self).fps,
                old(self).backend,
                old(self).width,
                old(self).height,
            ),
            f.info_x == INFO_ANCHOR,
            f.info_y == INFO_ANCHOR,
            f.build_text@ == old(self).build_id@,
            f.build_x == INFO_ANCHOR,
            f.build_y == build_anchor_y(old(self).height),
            f.scale == TEXT_SCALE,
    {
        let count = if self.frame_count < u32::MAX {
            self.frame_count + 1
        } else {
            self.frame_count
        };
        let elapsed = if now_ms >= self.window_start_ms {
            now_ms - self.window_start_ms
        } else {
            0
        };
        if elapsed >= SAMPLE_WINDOW_MS {
            self.fps = (count as u64) * 1000 / elapsed;
            self.window_start_ms = now_ms;
            self.frame_count = 0;
        } else {
            self.frame_count = count;
        }

        let mut info = String::from_str("FPS: ");
        let fps_dec = u64_to_dec(self.fps);
        info.append(fps_dec.as_str());
        info.append("\nBackend: ");
        info.append(backend_name(self.backend));
        info.append("\nSurface: ");
        let w_dec = u64_to_dec(self.width as u64);
        info.append(w_dec.as_str());
        info.append("x");
        let h_dec = u64_to_dec(self.height as u64);
        info.append(h_dec.as_str());

        let build_y = if self.height >= BUILD_LINE_HEIGHT {
            self.height - BUILD_LINE_HEIGHT
        } else {
            0
        };
        OverlayFrame {
            info_text: info,
            info_x: INFO_ANCHOR,
            info_y: INFO_ANCHOR,
            build_text: self.build_id.clone(),
            build_x: INFO_ANCHOR,
            build_y,
            scale: TEXT_SCALE,
        }
    }
}

/// Law: the frame-rate sample is never updated more often than once per
/// sampling window. A frame recorded before the current window has elapsed
/// leaves both the rate and the window start unchanged.
pub proof fn lemma_sample_rate_limited(o: DebugOverlay, now_ms: u64)
    requires
        now_ms < o.window_start_ms + SAMPLE_WINDOW_MS,
    ensures
        record_spec(o, now_ms).fps == o.fps,
        record_spec(o, now_ms).window_start_ms == o.window_start_ms,
{
}

/// Law: two samples taken less than one sampling window after the window
/// started are numerically identical, however many frames are recorded.
pub proof fn lemma_two_samples_identical(o: DebugOverlay, t1: u64, t2: u64)
    requires
        t1 < o.window_start_ms + SAMPLE_WINDOW_MS,
        t2 < o.window_start_ms + SAMPLE_WINDOW_MS,
    ensures
        record_spec(o, t1).fps == o.fps,
        record_spec(record_spec(o, t1), t2).fps == o.fps,
{
    lemma_sample_rate_limited(o, t1);
    lemma_sample_rate_limited(record_spec(o, t1), t2);
}

} // verus!
