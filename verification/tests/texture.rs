use luminos::frame_timings::FrameTime;
use luminos::renderer::RendererState;
use luminos::texture::{over_allocate, SourceTextureManager, STALE_FRAME_WARN_THRESHOLD};

#[test]
fn texture_over_allocate_small() {
    assert_eq!(over_allocate(100), 150);
}

#[test]
fn texture_over_allocate_960() {
    assert_eq!(over_allocate(960), 1440);
}

#[test]
fn texture_over_allocate_1920() {
    assert_eq!(over_allocate(1920), 2880);
}

#[test]
fn texture_over_allocate_one() {
    assert!(over_allocate(1) >= 2);
}

#[test]
fn texture_over_allocate_zero() {
    assert_eq!(over_allocate(0), 0);
}

#[test]
fn texture_over_allocate_saturates() {
    assert_eq!(over_allocate(u32::MAX), u32::MAX);
    assert_eq!(over_allocate(3), 5);
}

#[test]
fn texture_upload_reallocates_only_when_exceeding_capacity() {
    let mut m = SourceTextureManager::new(100, 100);
    assert_eq!(m.capacity(), (150, 150));
    assert!(!m.upload(150, 120));
    assert_eq!(m.capacity(), (150, 150));
    assert_eq!(m.current_dimensions(), (150, 120));
    assert!(m.upload(151, 10));
    assert_eq!(m.capacity(), (227, 15));
}

#[test]
fn texture_stale_frames_warn_at_threshold_and_reset_on_upload() {
    let mut m = SourceTextureManager::new(10, 10);
    let mut warnings = 0;
    for _ in 0..(STALE_FRAME_WARN_THRESHOLD + 5) {
        if m.record_capture_failure() {
            warnings += 1;
        }
    }
    assert_eq!(warnings, 1);
    assert_eq!(m.stale_frame_count(), STALE_FRAME_WARN_THRESHOLD + 5);
    m.upload(10, 10);
    assert_eq!(m.stale_frame_count(), 0);
}

#[test]
fn renderer_state_starts_at_half_viewport() {
    let r = RendererState::new(1920, 1080);
    assert_eq!(r.viewport_size(), (1920, 1080));
    assert_eq!(r.texture_state().current_dimensions(), (960, 540));
    assert_eq!(r.texture_state().capacity(), (1440, 810));
    assert_eq!(r.frame_timings().p99(), FrameTime::zero());
}

#[test]
fn renderer_state_ignores_zero_resize() {
    let mut r = RendererState::new(800, 600);
    r.resize(0, 600);
    assert_eq!(r.viewport_size(), (800, 600));
    r.resize(1024, 0);
    assert_eq!(r.viewport_size(), (800, 600));
    r.resize(1024, 768);
    assert_eq!(r.viewport_size(), (1024, 768));
}

#[test]
fn renderer_state_records_frames_and_failures() {
    let mut r = RendererState::new(800, 600);
    assert!(r.upload_frame(1000, 10));
    assert!(!r.upload_frame(400, 12));
    r.frame_presented(FrameTime::from_millis(12));
    assert_eq!(r.frame_timings().max(), FrameTime::from_millis(12));
    assert!(!r.handle_capture_failure());
    assert_eq!(r.texture_state().stale_frame_count(), 1);
}
