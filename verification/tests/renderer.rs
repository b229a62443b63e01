use egui_baseview::geom::PhySize;
use egui_baseview::output::{RenderParams, Rgba};
use egui_baseview::rational::Rat;
use egui_baseview::renderer::{
    surface_error_action, GraphicsConfig, OpenGlError, PowerPreference, PresentMode,
    RendererState, SurfaceErrorAction, SurfaceErrorKind, SurfaceErrorPolicy, WgpuConfiguration,
    BACKENDS_PRIMARY, BACKEND_GL,
};

fn params(width: u32, height: u32) -> RenderParams {
    RenderParams {
        bg_color: Rgba { r: 0, g: 0, b: 0, a: 255 },
        physical_size: PhySize { width, height },
        pixels_per_point: Rat { num: 1, den: 1 },
    }
}

#[test]
fn repeated_identical_renders_change_nothing() {
    let mut r = RendererState::new(4096);
    let sets = vec![7u64, 9u64];
    let none: Vec<u64> = Vec::new();

    let first = r.render(params(800, 600), &sets, &none);
    assert!(first, "the first pass must build the render target");
    assert_eq!(r.max_texture_side(), 4096);
    assert_eq!(r.textures.len(), 2);

    // Identical inputs, no texture deltas: nothing changes, nothing leaks.
    for _ in 0..10 {
        let rebuilt = r.render(params(800, 600), &none, &none);
        assert!(!rebuilt);
        assert_eq!(r.max_texture_side(), 4096);
        assert_eq!(r.textures.len(), 2);
    }
}

#[test]
fn resize_rebuilds_the_render_target_once() {
    let mut r = RendererState::new(1024);
    let none: Vec<u64> = Vec::new();
    assert!(r.render(params(100, 100), &none, &none));
    assert!(r.render(params(200, 100), &none, &none));
    assert!(!r.render(params(200, 100), &none, &none));
}

#[test]
fn texture_bookkeeping_ignores_duplicates_and_unknown_frees() {
    let mut r = RendererState::new(64);
    let none: Vec<u64> = Vec::new();
    r.render(params(10, 10), &vec![1, 1, 2], &none);
    assert_eq!(r.textures.len(), 2);
    r.render(params(10, 10), &none, &vec![3]);
    assert_eq!(r.textures.len(), 2);
    r.render(params(10, 10), &none, &vec![1]);
    assert_eq!(r.textures.len(), 1);
    // A texture set and freed in the same pass does not survive it.
    r.render(params(10, 10), &vec![5], &vec![5]);
    assert_eq!(r.textures.len(), 1);
}

#[test]
fn surface_error_policies() {
    for kind in [
        SurfaceErrorKind::Outdated,
        SurfaceErrorKind::Lost,
        SurfaceErrorKind::OutOfMemory,
        SurfaceErrorKind::Timeout,
        SurfaceErrorKind::Other,
    ] {
        assert_eq!(
            surface_error_action(SurfaceErrorPolicy::AlwaysSkip, kind),
            SurfaceErrorAction::SkipFrame
        );
        assert_eq!(
            surface_error_action(SurfaceErrorPolicy::AlwaysReconfigure, kind),
            SurfaceErrorAction::Reconfigure
        );
    }
    assert_eq!(
        surface_error_action(SurfaceErrorPolicy::ReconfigureWhenOutdated, SurfaceErrorKind::Outdated),
        SurfaceErrorAction::Reconfigure
    );
    assert_eq!(
        surface_error_action(SurfaceErrorPolicy::ReconfigureWhenOutdated, SurfaceErrorKind::Lost),
        SurfaceErrorAction::SkipFrame
    );
}

#[test]
fn wgpu_configuration_defaults() {
    let c = WgpuConfiguration::default();
    assert_eq!(c.supported_backends, BACKENDS_PRIMARY | BACKEND_GL);
    assert_eq!(c.present_mode, PresentMode::AutoVsync);
    assert_eq!(c.desired_maximum_frame_latency, None);
    assert_eq!(c.power_preference, PowerPreference::HighPerformance);
    assert_eq!(c.on_surface_error, SurfaceErrorPolicy::AlwaysSkip);
}

#[test]
fn wgpu_configuration_environment_overrides() {
    let c = WgpuConfiguration::default_with(Some(BACKEND_GL), Some(PowerPreference::LowPower));
    assert_eq!(c.supported_backends, BACKEND_GL);
    assert_eq!(c.power_preference, PowerPreference::LowPower);
}

#[test]
fn opengl_defaults_and_errors() {
    let c = GraphicsConfig::default();
    assert!(c.dithering);
    assert_eq!(c.shader_version, None);
    let err = OpenGlError::CreatePainter("no shader".to_string());
    assert_ne!(err, OpenGlError::NoContext);
}
