use luminos::error::{is_recoverable_surface_error, RenderError};
use luminos::surface::{
    acquire_step, select_alpha_mode, select_texture_format, surface_texture_error, AcquireStep,
    AlphaMode, SurfaceStatus,
};

#[test]
fn render_error_display_no_adapter() {
    let err = RenderError::NoAdapter;
    assert_eq!(err.to_string(), "no compatible GPU adapter found");
}

#[test]
fn render_error_display_device_creation() {
    let err = RenderError::DeviceCreation {
        message: "Vulkan init failed".into(),
    };
    let msg = err.to_string();
    assert!(msg.contains("GPU device creation failed"));
    assert!(msg.contains("Vulkan init failed"));
}

#[test]
fn render_error_display_surface_configuration() {
    let err = RenderError::SurfaceConfiguration {
        message: "no compatible format".into(),
    };
    let msg = err.to_string();
    assert!(msg.contains("surface configuration failed"));
    assert!(msg.contains("no compatible format"));
}

#[test]
fn render_error_display_surface_texture() {
    let err = RenderError::SurfaceTexture {
        message: "surface lost".into(),
    };
    let msg = err.to_string();
    assert!(msg.contains("surface texture unavailable"));
    assert!(msg.contains("surface lost"));
}

#[test]
fn render_error_display_shader_compilation() {
    let err = RenderError::ShaderCompilation {
        message: "syntax error at line 42".into(),
    };
    let msg = err.to_string();
    assert!(msg.contains("shader compilation failed"));
    assert!(msg.contains("syntax error at line 42"));
}

#[test]
fn render_error_display_render_failed() {
    let err = RenderError::RenderFailed {
        message: "command buffer submission timeout".into(),
    };
    let msg = err.to_string();
    assert!(msg.contains("render error"));
    assert!(msg.contains("command buffer submission timeout"));
}

#[test]
fn render_error_text_is_exact() {
    let err = RenderError::RenderFailed {
        message: "x".into(),
    };
    assert_eq!(err.to_string(), "render error: x");
}

#[test]
fn render_error_recoverable_surface_states() {
    let lost = RenderError::SurfaceTexture { message: "Lost".into() };
    let outdated = RenderError::SurfaceTexture { message: "status Outdated".into() };
    let timeout = RenderError::SurfaceTexture { message: "Timeout".into() };
    let other = RenderError::RenderFailed { message: "Lost".into() };
    assert!(is_recoverable_surface_error(&lost));
    assert!(is_recoverable_surface_error(&outdated));
    assert!(!is_recoverable_surface_error(&timeout));
    assert!(!is_recoverable_surface_error(&other));
}

#[test]
fn surface_select_alpha_mode_prefers_premultiplied() {
    let modes = vec![
        AlphaMode::Opaque,
        AlphaMode::PreMultiplied,
        AlphaMode::PostMultiplied,
    ];
    assert_eq!(select_alpha_mode(&modes), AlphaMode::PreMultiplied);
}

#[test]
fn surface_select_alpha_mode_falls_back_to_postmultiplied() {
    let modes = vec![AlphaMode::Opaque, AlphaMode::PostMultiplied];
    assert_eq!(select_alpha_mode(&modes), AlphaMode::PostMultiplied);
}

#[test]
fn surface_select_alpha_mode_falls_back_to_opaque() {
    let modes = vec![AlphaMode::Opaque];
    assert_eq!(select_alpha_mode(&modes), AlphaMode::Opaque);
}

#[test]
fn surface_select_alpha_mode_empty_returns_opaque() {
    assert_eq!(select_alpha_mode(&[]), AlphaMode::Opaque);
}

#[test]
fn surface_select_format_prefers_srgb() {
    let formats = vec![
        wgpu::TextureFormat::Bgra8Unorm,
        wgpu::TextureFormat::Rgba8UnormSrgb,
        wgpu::TextureFormat::Bgra8UnormSrgb,
    ];
    let format = select_texture_format(&formats).unwrap();
    assert!(format.is_srgb(), "expected sRGB format, got {format:?}");
    assert_eq!(format, wgpu::TextureFormat::Rgba8UnormSrgb);
}

#[test]
fn surface_select_format_falls_back_to_first() {
    let formats = vec![
        wgpu::TextureFormat::Bgra8Unorm,
        wgpu::TextureFormat::Rgba8Unorm,
    ];
    let format = select_texture_format(&formats).unwrap();
    assert_eq!(format, wgpu::TextureFormat::Bgra8Unorm);
}

#[test]
fn surface_select_format_empty_returns_error() {
    let result = select_texture_format(&[]);
    assert!(result.is_err());
    let err = result.unwrap_err();
    assert!(
        err.to_string().contains("no compatible surface format"),
        "unexpected error: {}",
        err.to_string()
    );
}

#[test]
fn surface_select_format_single_srgb() {
    let formats = vec![wgpu::TextureFormat::Rgba8UnormSrgb];
    let format = select_texture_format(&formats).unwrap();
    assert_eq!(format, wgpu::TextureFormat::Rgba8UnormSrgb);
}

#[test]
fn surface_acquire_retries_once_on_outdated_or_lost() {
    assert_eq!(acquire_step(SurfaceStatus::Success, false), AcquireStep::Use);
    assert_eq!(acquire_step(SurfaceStatus::Suboptimal, true), AcquireStep::Use);
    assert_eq!(
        acquire_step(SurfaceStatus::Lost, false),
        AcquireStep::ReconfigureAndRetry
    );
    assert_eq!(
        acquire_step(SurfaceStatus::Outdated, false),
        AcquireStep::ReconfigureAndRetry
    );
    assert_eq!(acquire_step(SurfaceStatus::Lost, true), AcquireStep::Fail);
    assert_eq!(acquire_step(SurfaceStatus::Timeout, false), AcquireStep::Fail);
    assert_eq!(acquire_step(SurfaceStatus::Occluded, false), AcquireStep::Fail);
    assert_eq!(acquire_step(SurfaceStatus::Validation, false), AcquireStep::Fail);
}

#[test]
fn surface_status_errors_name_the_status() {
    let lost = surface_texture_error(SurfaceStatus::Lost);
    assert_eq!(lost.to_string(), "surface texture unavailable: Lost");
    assert!(is_recoverable_surface_error(&lost));
    assert!(is_recoverable_surface_error(&surface_texture_error(
        SurfaceStatus::Outdated
    )));
    assert!(!is_recoverable_surface_error(&surface_texture_error(
        SurfaceStatus::Occluded
    )));
    assert!(!is_recoverable_surface_error(&surface_texture_error(
        SurfaceStatus::Timeout
    )));
}
