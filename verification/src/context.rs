//! The frame orchestrator.
//!
//! The context owns the surface configuration, the compute and render
//! stages, and the debug overlay, and drives the per-frame state machine.
//! Whenever the surface changes size or is invalidated, both stages are
//! rebuilt together: the render stage's only binding is the compute stage's
//! output view, so one can never outlive the other. Per frame, acquisition
//! errors are classified as transient (reconfigure and resume), fatal (stop
//! the loop) or ignorable (drop the frame and continue).

use vstd::prelude::*;

use crate::compute_pipeline::ComputePipeline;
use crate::compute_pipeline::TextureViewHandle;
use crate::config::SurfaceCaps;
use crate::config::SurfaceConfig;
use crate::config::chosen_format;
use crate::debug::Backend;
use crate::debug::DebugOverlay;
use crate::debug::INFO_ANCHOR;
use crate::debug::OverlayFrame;
use crate::debug::TEXT_SCALE;
use crate::debug::build_anchor_y;
use crate::debug::info_label;
use crate::debug::record_spec;
use crate::render_pipeline::RenderPipeline;

verus! {

/// Where the orchestrator stands between frames.
#[derive(Clone, Copy, PartialEq, Eq, Structural, Debug)]
pub enum Phase {
    /// Resources match the configuration; a frame may be rendered.
    Ready,
    /// Acquisition reported a lost or outdated surface; the caller must
    /// reconfigure before the next frame.
    SurfaceLost,
    /// Acquisition ran out of memory; the loop must stop.
    Fatal,
}

/// The error frame acquisition can report.
#[derive(Clone, Copy, PartialEq, Eq, Structural, Debug)]
pub enum SurfaceError {
    Timeout,
    Outdated,
    Lost,
    OutOfMemory,
    Other,
}

/// How an acquisition error is handled.
#[derive(Clone, Copy, PartialEq, Eq, Structural, Debug)]
pub enum ErrorClass {
    /// Reconfigure the surface and dependent resources, then resume.
    Transient,
    /// Stop the render loop.
    Fatal,
    /// Log, drop the frame, continue; no resource rebuild.
    Ignorable,
}

/// The handler table over acquisition errors: lost or outdated surfaces are
/// transient, out-of-memory is fatal, everything else is ignorable.
pub open spec fn classify_spec(e: SurfaceError) -> ErrorClass {
    match e {
        SurfaceError::Lost => ErrorClass::Transient,
        SurfaceError::Outdated => ErrorClass::Transient,
        SurfaceError::OutOfMemory => ErrorClass::Fatal,
        SurfaceError::Timeout => ErrorClass::Ignorable,
        SurfaceError::Other => ErrorClass::Ignorable,
    }
}

/// Classifies an acquisition error.
pub fn classify(e: SurfaceError) -> (c: ErrorClass)
    ensures
        c == classify_spec(e),
{
    match e {
        SurfaceError::Lost => ErrorClass::Transient,
        SurfaceError::Outdated => ErrorClass::Transient,
        SurfaceError::OutOfMemory => ErrorClass::Fatal,
        SurfaceError::Timeout => ErrorClass::Ignorable,
        SurfaceError::Other => ErrorClass::Ignorable,
    }
}

/// What one frame attempt came to.
#[derive(Clone, Copy, PartialEq, Eq, Structural, Debug)]
pub enum FrameOutcome {
    /// The frame was recorded, submitted and presented.
    Presented,
    /// An ignorable acquisition error: the frame was dropped.
    Skipped,
    /// A transient acquisition error: reconfigure, then resume.
    NeedsReconfigure,
    /// An out-of-memory acquisition error: stop the loop.
    Fatal,
}

/// What the event loop does after a frame attempt.
#[derive(Clone, Copy, PartialEq, Eq, Structural, Debug)]
pub enum ControlAction {
    /// Request the next redraw.
    Continue,
    /// Reconfigure the surface, then request the next redraw.
    Reconfigure,
    /// Leave the event loop.
    Exit,
}

/// The loop's decision for each frame outcome.
pub open spec fn next_control_spec(outcome: FrameOutcome) -> ControlAction {
    match outcome {
        FrameOutcome::Presented => ControlAction::Continue,
        FrameOutcome::Skipped => ControlAction::Continue,
        FrameOutcome::NeedsReconfigure => ControlAction::Reconfigure,
        FrameOutcome::Fatal => ControlAction::Exit,
    }
}

/// Decides what the event loop does after a frame attempt: it goes on after
/// a presented or dropped frame, reconfigures after a transient error, and
/// exits after a fatal one, so no frame is ever attempted past a fatal
/// outcome.
pub fn next_control(outcome: FrameOutcome) -> (a: ControlAction)
    ensures
        a == next_control_spec(outcome),
{
    match outcome {
        FrameOutcome::Presented => ControlAction::Continue,
        FrameOutcome::Skipped => ControlAction::Continue,
        FrameOutcome::NeedsReconfigure => ControlAction::Reconfigure,
        FrameOutcome::Fatal => ControlAction::Exit,
    }
}

/// The orchestrator a fresh initialization builds for the given capability
/// set, drawable size, backend and build identifier: the first view made has
/// identity zero, and the render stage binds it.
pub open spec fn fresh_context_spec(
    caps: SurfaceCaps,
    width: u32,
    height: u32,
    backend: Backend,
    build_id: String,
    now_ms: u64,
) -> Context {
    Context {
        config: SurfaceConfig {
            format: chosen_format(caps.formats@),
            width,
            height,
            present_mode: caps.present_modes@[0],
            alpha_mode: caps.alpha_modes@[0],
            max_frame_latency: 2,
        },
        compute_pipeline: ComputePipeline {
            width,
            height,
            view: TextureViewHandle { id: 0 },
        },
        render_pipeline: RenderPipeline {
            color_format: chosen_format(caps.formats@),
            input_view: TextureViewHandle { id: 0 },
        },
        overlay: DebugOverlay {
            fps: 0,
            window_start_ms: now_ms,
            frame_count: 0,
            backend,
            width,
            height,
            build_id,
        },
        phase: Phase::Ready,
        views_made: 1,
    }
}

/// Functional equivalence of two orchestrators' stage pairs: the offscreen
/// textures have the same dimensions, the render stages write the same color
/// format, and in each pair the render stage binds its own compute stage's
/// current view, whatever identity that view carries.
pub open spec fn stages_equivalent(a: Context, b: Context) -> bool {
    &&& a.compute_pipeline.width == b.compute_pipeline.width
    &&& a.compute_pipeline.height == b.compute_pipeline.height
    &&& a.render_pipeline.color_format == b.render_pipeline.color_format
    &&& a.render_pipeline.input_view == a.compute_pipeline.view
    &&& b.render_pipeline.input_view == b.compute_pipeline.view
}

/// The overlay output of a presented frame: the statistics block reflects
/// the sample as freshly recorded at `now_ms`, and the build block carries
/// the stored identifier, each at its fixed screen anchor.
pub open spec fn overlay_frame_matches(f: OverlayFrame, pre: Context, now_ms: u64) -> bool {
    &&& f.info_text@ == info_label(
        record_spec(pre.overlay, now_ms).fps,
        pre.overlay.backend,
        pre.overlay.width,
        pre.overlay.height,
    )
    &&& f.info_x == INFO_ANCHOR
    &&& f.info_y == INFO_ANCHOR
    &&& f.build_text@ == pre.overlay.build_id@
    &&& f.build_x == INFO_ANCHOR
    &&& f.build_y == build_anchor_y(pre.overlay.height)
    &&& f.scale == TEXT_SCALE
}

/// The frame orchestrator: configuration, the two stages, the overlay, the
/// phase of the frame state machine, and a count of views made so far, from
/// which each rebuilt view takes a fresh identity.
#[derive(Debug)]
pub struct Context {
    pub config: SurfaceConfig,
    pub compute_pipeline: ComputePipeline,
    pub render_pipeline: RenderPipeline,
    pub overlay: DebugOverlay,
    pub phase: Phase,
    pub views_made: u64,
}

/// Both stages rebuilt from the current configuration: the compute stage's
/// texture takes the configured size and a fresh view identity, the render
/// stage binds exactly that view, and the overlay viewport follows.
pub open spec fn reconfigure_spec(c: Context) -> Context {
    Context {
        config: c.config,
        compute_pipeline: ComputePipeline {
            width: c.config.width,
            height: c.config.height,
            view: TextureViewHandle { id: c.views_made },
        },
        render_pipeline: RenderPipeline {
            color_format: c.config.format,
            input_view: TextureViewHandle { id: c.views_made },
        },
        overlay: DebugOverlay {
            width: c.config.width,
            height: c.config.height,
            fps: c.overlay.fps,
            window_start_ms: c.overlay.window_start_ms,
            frame_count: c.overlay.frame_count,
            backend: c.overlay.backend,
            build_id: c.overlay.build_id,
        },
        phase: Phase::Ready,
        views_made: (c.views_made + 1) as u64,
    }
}

/// A resize: the configured size changes, then everything is reconfigured.
pub open spec fn handle_resize_spec(c: Context, width: u32, height: u32) -> Context {
    reconfigure_spec(
        Context {
            config: SurfaceConfig { width, height, ..c.config },
            compute_pipeline: c.compute_pipeline,
            render_pipeline: c.render_pipeline,
            overlay: c.overlay,
            phase: c.phase,
            views_made: c.views_made,
        },
    )
}

impl Context {
    /// The orchestrator's invariant: the surface has positive area, the
    /// offscreen texture's dimensions equal the configured size exactly, the
    /// render stage binds the compute stage's current view and writes the
    /// configured format, the view identity was made by this context, and
    /// the overlay viewport matches the surface.
    pub open spec fn wf(self) -> bool {
        &&& self.config.valid_size()
        &&& self.compute_pipeline.width == self.config.width
        &&& self.compute_pipeline.height == self.config.height
        &&& self.render_pipeline.input_view == self.compute_pipeline.view
        &&& self.render_pipeline.color_format == self.config.format
        &&& self.compute_pipeline.view.id < self.views_made
        &&& self.overlay.width == self.config.width
        &&& self.overlay.height == self.config.height
    }

    /// Initializes the orchestrator over a device and surface the shell has
    /// already acquired: picks the configuration from the advertised
    /// capability set, then builds the compute stage and, against its output
    /// view, the render stage, in that dependency order.
    pub fn new(
        caps: &SurfaceCaps,
        width: u32,
        height: u32,
        backend: Backend,
        build_id: String,
        now_ms: u64,
    ) -> (c: Context)
        requires
            caps.formats@.len() > 0,
            caps.present_modes@.len() > 0,
            caps.alpha_modes@.len() > 0,
            width > 0,
            height > 0,
        ensures
            c.wf(),
            c.phase == Phase::Ready,
            c.config == (SurfaceConfig {
                format: chosen_format(caps.formats@),
                width,
                height,
                present_mode: caps.present_modes@[0],
                alpha_mode: caps.alpha_modes@[0],
                max_frame_latency: 2,
            }),
            c.compute_pipeline.width == width,
            c.compute_pipeline.height == height,
            c.render_pipeline.input_view == c.compute_pipeline.view,
            c.render_pipeline.color_format == c.config.format,
            c.views_made == 1,
            c.overlay == (DebugOverlay {
                fps: 0,
                window_start_ms: now_ms,
                frame_count: 0,
                backend,
                width,
                height,
                build_id,
            }),
            c == fresh_context_spec(*caps, width, height, backend, build_id, now_ms),
    {
        let config = SurfaceConfig::from_caps(caps, width, height);
        let compute_pipeline = ComputePipeline::new(width, height, TextureViewHandle { id: 0 });
        let render_pipeline = RenderPipeline::new(config.format, compute_pipeline.get_texture_view());
        let overlay = DebugOverlay::new(backend, width, height, build_id, now_ms);
        Context { config, compute_pipeline, render_pipeline, overlay, phase: Phase::Ready, views_made: 1 }
    }

    /// Reconfigures the surface to the current configuration and rebuilds
    /// both stages from scratch: the new pair is fully constructed before
    /// the old pair is dropped, so a failure during construction can never
    /// leave the orchestrator holding half-built state. The overlay viewport
    /// is resized to match. After this, the offscreen texture's dimensions
    /// equal the configured size exactly.
    pub fn reconfigure_surface(&mut self)
        requires
            old(self).config.valid_size(),
            old(self).phase != Phase::Fatal,
            old(self).views_made < u64::MAX,
        ensures
            *final(self) == reconfigure_spec(*old(self)),
            final(self).wf(),
            final(self).phase == Phase::Ready,
            final(self).config == old(self).config,
            final(self).compute_pipeline.width == old(self).config.width,
            final(self).compute_pipeline.height == old(self).config.height,
            final(self).render_pipeline.input_view == final(self).compute_pipeline.view,
            final(self).compute_pipeline.view.id == old(self).views_made,
            final(self).views_made == old(self).views_made + 1,
    {
        let compute_pipeline = ComputePipeline::new(
            self.config.width,
            self.config.height,
            TextureViewHandle { id: self.views_made },
        );
        let render_pipeline = RenderPipeline::new(
            self.config.format,
            compute_pipeline.get_texture_view(),
        );
        self.compute_pipeline = compute_pipeline;
        self.render_pipeline = render_pipeline;
        self.views_made = self.views_made + 1;
        let width = self.config.width;
        let height = self.config.height;
        self.overlay.handle_resize(width, height);
        self.phase = Phase::Ready;
    }

    /// Applies a resize event: updates the configured size, then
    /// reconfigures; the frame-rate sample is untouched.
    pub fn handle_resize(&mut self, width: u32, height: u32)
        requires
            old(self).phase != Phase::Fatal,
            width > 0,
            height > 0,
            old(self).views_made < u64::MAX,
        ensures
            *final(self) == handle_resize_spec(*old(self), width, height),
            final(self).wf(),
            final(self).phase == Phase::Ready,
            final(self).config == (SurfaceConfig { width, height, ..old(self).config }),
            final(self).compute_pipeline.width == width,
            final(self).compute_pipeline.height == height,
            final(self).render_pipeline.input_view == final(self).compute_pipeline.view,
            final(self).compute_pipeline.view.id == old(self).views_made,
            final(self).views_made == old(self).views_made + 1,
    {
        self.config.width = width;
        self.config.height = height;
        self.reconfigure_surface();
    }

    /// Attempts one frame, given what acquiring the frame texture came to.
    /// On success the frame is recorded (compute pass, then render pass,
    /// then overlay), submitted and presented, and the frame-rate sample
    /// records the frame; the stages and configuration are untouched either
    /// way. On failure nothing is presented and the error's class decides
    /// the outcome: transient errors demand a reconfigure, out-of-memory is
    /// fatal, anything else drops the frame.
    pub fn render(&mut self, acquired: Result<(), SurfaceError>, now_ms: u64) -> (res: (
        FrameOutcome,
        Option<OverlayFrame>,
    ))
        requires
            old(self).wf(),
            old(self).phase == Phase::Ready,
        ensures
            final(self).wf(),
            final(self).config == old(self).config,
            final(self).compute_pipeline == old(self).compute_pipeline,
            final(self).render_pipeline == old(self).render_pipeline,
            final(self).views_made == old(self).views_made,
            (res.0 == FrameOutcome::Presented) <==> acquired is Ok,
            (res.0 == FrameOutcome::Fatal) <==> acquired matches Err(SurfaceError::OutOfMemory),
            res.1 is Some <==> acquired is Ok,
            acquired is Ok ==> {
                &&& final(self).phase == Phase::Ready
                &&& final(self).overlay == record_spec(old(self).overlay, now_ms)
                &&& res.1 matches Some(f) && overlay_frame_matches(f, *old(self), now_ms)
            },
            acquired matches Err(e) ==> {
                &&& final(self).overlay == old(self).overlay
                &&& match classify_spec(e) {
                    ErrorClass::Transient => res.0 == FrameOutcome::NeedsReconfigure
                        && final(self).phase == Phase::SurfaceLost,
                    ErrorClass::Fatal => res.0 == FrameOutcome::Fatal
                        && final(self).phase == Phase::Fatal,
                    ErrorClass::Ignorable => res.0 == FrameOutcome::Skipped
                        && final(self).phase == Phase::Ready,
                }
            },
    {
        match acquired {
            Ok(()) => {
                let f = self.overlay.render(now_ms);
                (FrameOutcome::Presented, Some(f))
            },
            Err(e) => {
                match classify(e) {
                    ErrorClass::Transient => {
                        self.phase = Phase::SurfaceLost;
                        (FrameOutcome::NeedsReconfigure, None)
                    },
                    ErrorClass::Fatal => {
                        self.phase = Phase::Fatal;
                        (FrameOutcome::Fatal, None)
                    },
                    ErrorClass::Ignorable => (FrameOutcome::Skipped, None),
                }
            },
        }
    }
}

/// Law: reconfigure sequences are idempotent in what they build. Resizing
/// from one size to another and back yields a stage pair functionally
/// equivalent to a fresh build at the first size, and the round trip leaks
/// no reference to the intermediate-size resources: the final render binding
/// names the final compute view, which differs from the intermediate one.
pub proof fn lemma_resize_round_trip(
    c: Context,
    w1: u32,
    h1: u32,
    w2: u32,
    h2: u32,
    caps: SurfaceCaps,
    backend: Backend,
    build_id: String,
    now_ms: u64,
)
    requires
        c.wf(),
        c.config.width == w1,
        c.config.height == h1,
        w1 > 0,
        h1 > 0,
        w2 > 0,
        h2 > 0,
        c.views_made + 1 < u64::MAX,
        caps.formats@.len() > 0,
        c.config.format == chosen_format(caps.formats@),
    ensures
        ({
            let mid = handle_resize_spec(c, w2, h2);
            let back = handle_resize_spec(mid, w1, h1);
            let fresh = fresh_context_spec(caps, w1, h1, backend, build_id, now_ms);
            &&& stages_equivalent(back, fresh)
            &&& back.config.width == w1 && back.config.height == h1
            &&& back.compute_pipeline.view != mid.compute_pipeline.view
        }),
{
}

} // verus!
