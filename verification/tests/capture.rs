use luminos::capture::place_source_region;
use luminos::state::{ScreenPoint, ScreenRect};

fn screen_1080p() -> ScreenRect {
    ScreenRect {
        x: 0,
        y: 0,
        width: 1920,
        height: 1080,
    }
}

/// The magnified source size is the viewport divided by the zoom, rounded
/// up; the library places it on the display.
fn compute_source_region(
    target: ScreenPoint,
    zoom_level: f32,
    viewport: (u32, u32),
    bounds: ScreenRect,
) -> ScreenRect {
    if zoom_level <= 0.0 {
        return ScreenRect {
            x: target.x,
            y: target.y,
            width: 0,
            height: 0,
        };
    }
    let w = (viewport.0 as f32 / zoom_level).ceil() as i32;
    let h = (viewport.1 as f32 / zoom_level).ceil() as i32;
    place_source_region(target, w, h, bounds)
}

fn center() -> ScreenPoint {
    ScreenPoint { x: 960, y: 540 }
}

#[test]
fn viewport_source_region_2x_zoom() {
    let result = compute_source_region(center(), 2.0, (1920, 1080), screen_1080p());
    assert_eq!(result.width, 960);
    assert_eq!(result.height, 540);
}

#[test]
fn viewport_source_region_5x_zoom() {
    let result = compute_source_region(center(), 5.0, (1920, 1080), screen_1080p());
    assert_eq!(result.width, 384);
    assert_eq!(result.height, 216);
}

#[test]
fn viewport_source_region_10x_zoom() {
    let result = compute_source_region(center(), 10.0, (1920, 1080), screen_1080p());
    assert_eq!(result.width, 192);
    assert_eq!(result.height, 108);
}

#[test]
fn viewport_source_region_20x_zoom() {
    let result = compute_source_region(center(), 20.0, (1920, 1080), screen_1080p());
    assert_eq!(result.width, 96);
    assert_eq!(result.height, 54);
}

#[test]
fn viewport_source_region_1_5x_zoom() {
    let result = compute_source_region(center(), 1.5, (1920, 1080), screen_1080p());
    assert_eq!(result.width, 1280);
    assert_eq!(result.height, 720);
}

#[test]
fn viewport_source_region_centered() {
    let result = compute_source_region(center(), 2.0, (1920, 1080), screen_1080p());
    assert_eq!(result.x, 480);
    assert_eq!(result.y, 270);
}

#[test]
fn viewport_source_region_clamp_left() {
    let result = compute_source_region(ScreenPoint { x: 0, y: 540 }, 2.0, (1920, 1080), screen_1080p());
    assert_eq!(result.x, 0, "x should be clamped to screen left edge");
}

#[test]
fn viewport_source_region_clamp_top() {
    let result = compute_source_region(ScreenPoint { x: 960, y: 0 }, 2.0, (1920, 1080), screen_1080p());
    assert_eq!(result.y, 0, "y should be clamped to screen top edge");
}

#[test]
fn viewport_source_region_clamp_right() {
    let result = compute_source_region(ScreenPoint { x: 1920, y: 540 }, 2.0, (1920, 1080), screen_1080p());
    assert_eq!(result.x, 960, "x should be clamped to screen right edge");
}

#[test]
fn viewport_source_region_clamp_bottom() {
    let result = compute_source_region(ScreenPoint { x: 960, y: 1080 }, 2.0, (1920, 1080), screen_1080p());
    assert_eq!(result.y, 540, "y should be clamped to screen bottom edge");
}

#[test]
fn viewport_source_region_clamp_corner() {
    let result = compute_source_region(ScreenPoint { x: 0, y: 0 }, 2.0, (1920, 1080), screen_1080p());
    assert_eq!(result.x, 0, "x should be clamped to 0");
    assert_eq!(result.y, 0, "y should be clamped to 0");
}

#[test]
fn viewport_source_region_zero_zoom() {
    let result = compute_source_region(center(), 0.0, (1920, 1080), screen_1080p());
    assert_eq!(result.width, 0);
    assert_eq!(result.height, 0);
}

#[test]
fn source_region_on_second_monitor_stays_on_it() {
    let right = ScreenRect {
        x: 1920,
        y: 0,
        width: 1920,
        height: 1080,
    };
    let r = place_source_region(ScreenPoint { x: 100, y: 2000 }, 960, 540, right);
    assert_eq!((r.x, r.y), (1920, 540));
    let wide = place_source_region(ScreenPoint { x: 2500, y: 10 }, 4000, 540, right);
    assert_eq!(wide.x, 1920);
    assert_eq!(wide.width, 4000);
}
