use novastar::compute_pipeline::{ComputePipeline, TextureViewHandle};
use novastar::config::{SurfaceCaps, SurfaceConfig, TextureFormat, choose_format};
use novastar::context::{Context, ControlAction, ErrorClass, FrameOutcome, Phase, SurfaceError, classify, next_control};
use novastar::debug::Backend;

fn caps_one_format(code: u32, srgb: bool) -> SurfaceCaps {
    SurfaceCaps {
        formats: vec![TextureFormat { code, srgb }],
        present_modes: vec![0],
        alpha_modes: vec![0],
    }
}

fn ready_context(width: u32, height: u32) -> Context {
    Context::new(
        &caps_one_format(1, true),
        width,
        height,
        Backend::Vulkan,
        String::from("rev0"),
        0,
    )
}

#[test]
fn choose_format_prefers_first_srgb() {
    let formats = vec![
        TextureFormat { code: 10, srgb: false },
        TextureFormat { code: 11, srgb: true },
        TextureFormat { code: 12, srgb: true },
    ];
    assert_eq!(choose_format(&formats), TextureFormat { code: 11, srgb: true });
}

#[test]
fn choose_format_falls_back_to_first() {
    let formats = vec![
        TextureFormat { code: 20, srgb: false },
        TextureFormat { code: 21, srgb: false },
    ];
    assert_eq!(choose_format(&formats), TextureFormat { code: 20, srgb: false });
}

#[test]
fn choose_format_takes_first_when_srgb() {
    let formats = vec![
        TextureFormat { code: 30, srgb: true },
        TextureFormat { code: 31, srgb: false },
    ];
    assert_eq!(choose_format(&formats), TextureFormat { code: 30, srgb: true });
}

#[test]
fn config_from_caps_takes_first_modes() {
    let caps = SurfaceCaps {
        formats: vec![
            TextureFormat { code: 5, srgb: false },
            TextureFormat { code: 6, srgb: true },
        ],
        present_modes: vec![7, 8],
        alpha_modes: vec![9, 1],
    };
    let config = SurfaceConfig::from_caps(&caps, 1900, 1205);
    assert_eq!(config.format, TextureFormat { code: 6, srgb: true });
    assert_eq!(config.width, 1900);
    assert_eq!(config.height, 1205);
    assert_eq!(config.present_mode, 7);
    assert_eq!(config.alpha_mode, 9);
    assert_eq!(config.max_frame_latency, 2);
}

#[test]
fn dispatch_for_256_is_16_16_1() {
    let p = ComputePipeline::new(256, 256, TextureViewHandle { id: 0 });
    assert_eq!(p.compute(), (16, 16, 1));
}

#[test]
fn dispatch_for_250_rounds_up_to_16_16_1() {
    // The dispatch grid is padded: 250 pixels need 16 tiles of 16, so no
    // border is left unwritten.
    let p = ComputePipeline::new(250, 250, TextureViewHandle { id: 0 });
    assert_eq!(p.compute(), (16, 16, 1));
}

#[test]
fn dispatch_rounding_edges() {
    let p = ComputePipeline::new(1, 16, TextureViewHandle { id: 0 });
    assert_eq!(p.compute(), (1, 1, 1));
    let q = ComputePipeline::new(17, 32, TextureViewHandle { id: 0 });
    assert_eq!(q.compute(), (2, 2, 1));
}

#[test]
fn reconfigure_matches_offscreen_texture_to_config() {
    let mut ctx = ready_context(640, 480);
    assert_eq!(ctx.compute_pipeline.width, 640);
    assert_eq!(ctx.compute_pipeline.height, 480);
    ctx.handle_resize(123, 77);
    assert_eq!(ctx.config.width, 123);
    assert_eq!(ctx.config.height, 77);
    assert_eq!(ctx.compute_pipeline.width, 123);
    assert_eq!(ctx.compute_pipeline.height, 77);
    assert_eq!(ctx.overlay.width, 123);
    assert_eq!(ctx.overlay.height, 77);
}

#[test]
fn resize_round_trip_equals_fresh_build() {
    let mut ctx = ready_context(800, 600);
    ctx.handle_resize(1024, 768);
    let intermediate_view = ctx.compute_pipeline.view;
    ctx.handle_resize(800, 600);
    let fresh = ready_context(800, 600);

    // Functionally equivalent stages: same dimensions and color format,
    // and each render stage binds its own compute stage's current view.
    assert_eq!(ctx.compute_pipeline.width, fresh.compute_pipeline.width);
    assert_eq!(ctx.compute_pipeline.height, fresh.compute_pipeline.height);
    assert_eq!(ctx.render_pipeline.color_format, fresh.render_pipeline.color_format);
    assert_eq!(ctx.render_pipeline.input_view, ctx.compute_pipeline.view);
    assert_eq!(fresh.render_pipeline.input_view, fresh.compute_pipeline.view);

    // No reference to the intermediate-size resources survives.
    assert_ne!(ctx.compute_pipeline.view, intermediate_view);
    assert_ne!(ctx.render_pipeline.input_view, intermediate_view);

    // The draw samples exactly the view the compute stage exposes.
    assert_eq!(ctx.render_pipeline.render(), ctx.compute_pipeline.get_texture_view());
}

#[test]
fn render_success_presents_and_stays_ready() {
    let mut ctx = ready_context(256, 256);
    let (outcome, overlay) = ctx.render(Ok(()), 10);
    assert_eq!(outcome, FrameOutcome::Presented);
    assert!(overlay.is_some());
    assert_eq!(ctx.phase, Phase::Ready);
    assert_eq!(ctx.overlay.frame_count, 1);
    assert_eq!(next_control(outcome), ControlAction::Continue);
}

#[test]
fn surface_lost_drops_frame_reconfigures_once_then_succeeds() {
    let mut ctx = ready_context(300, 200);
    let view_before = ctx.compute_pipeline.view;
    let frames_before = ctx.overlay.frame_count;

    // Frame N: acquisition reports a lost surface.
    let (outcome, overlay) = ctx.render(Err(SurfaceError::Lost), 100);
    assert_eq!(outcome, FrameOutcome::NeedsReconfigure);
    assert!(overlay.is_none(), "a lost frame presents no output");
    assert_eq!(ctx.overlay.frame_count, frames_before, "a lost frame is not counted");
    assert_eq!(ctx.phase, Phase::SurfaceLost);
    assert_eq!(next_control(outcome), ControlAction::Reconfigure);

    // The caller reconfigures exactly once.
    ctx.reconfigure_surface();
    assert_eq!(ctx.phase, Phase::Ready);

    // Frame N+1 succeeds using freshly built resources.
    assert_ne!(ctx.compute_pipeline.view, view_before);
    assert_eq!(ctx.render_pipeline.input_view, ctx.compute_pipeline.view);
    let (outcome2, overlay2) = ctx.render(Ok(()), 116);
    assert_eq!(outcome2, FrameOutcome::Presented);
    assert!(overlay2.is_some());
}

#[test]
fn outdated_surface_needs_reconfigure() {
    let mut ctx = ready_context(300, 200);
    let (outcome, _) = ctx.render(Err(SurfaceError::Outdated), 5);
    assert_eq!(outcome, FrameOutcome::NeedsReconfigure);
    assert_eq!(ctx.phase, Phase::SurfaceLost);
}

#[test]
fn out_of_memory_is_fatal_and_stops_the_loop() {
    let mut ctx = ready_context(300, 200);
    let (outcome, overlay) = ctx.render(Err(SurfaceError::OutOfMemory), 5);
    assert_eq!(outcome, FrameOutcome::Fatal);
    assert!(overlay.is_none());
    assert_eq!(ctx.phase, Phase::Fatal);
    // The loop exits: no further frame is attempted.
    assert_eq!(next_control(outcome), ControlAction::Exit);
}

#[test]
fn other_errors_drop_the_frame_and_continue() {
    let mut ctx = ready_context(300, 200);
    let (outcome, overlay) = ctx.render(Err(SurfaceError::Timeout), 5);
    assert_eq!(outcome, FrameOutcome::Skipped);
    assert!(overlay.is_none());
    assert_eq!(ctx.phase, Phase::Ready);
    assert_eq!(next_control(outcome), ControlAction::Continue);
    let (outcome2, _) = ctx.render(Err(SurfaceError::Other), 6);
    assert_eq!(outcome2, FrameOutcome::Skipped);
    assert_eq!(ctx.phase, Phase::Ready);
}

#[test]
fn classify_covers_the_error_taxonomy() {
    assert_eq!(classify(SurfaceError::Lost), ErrorClass::Transient);
    assert_eq!(classify(SurfaceError::Outdated), ErrorClass::Transient);
    assert_eq!(classify(SurfaceError::OutOfMemory), ErrorClass::Fatal);
    assert_eq!(classify(SurfaceError::Timeout), ErrorClass::Ignorable);
    assert_eq!(classify(SurfaceError::Other), ErrorClass::Ignorable);
}

#[test]
fn render_does_not_touch_stages_or_config() {
    let mut ctx = ready_context(400, 300);
    let compute_before = ctx.compute_pipeline;
    let render_before = ctx.render_pipeline;
    let config_before = ctx.config;
    let _ = ctx.render(Ok(()), 1);
    let _ = ctx.render(Err(SurfaceError::Lost), 2);
    assert_eq!(ctx.compute_pipeline, compute_before);
    assert_eq!(ctx.render_pipeline, render_before);
    assert_eq!(ctx.config, config_before);
}
