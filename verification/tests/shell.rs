use std::sync::atomic::{AtomicBool, Ordering};
use std::sync::Arc;

use luminos::capture::{choose_display, DisplayInfo};
use luminos::compositor::{compositor_running_from, compositor_selection_name};
use luminos::event::LuminosEvent;
use luminos::notifier::AppNotifier;
use luminos::pipeline::EventNotifier;
use luminos::run_loop::{
    capture_exclusion, close_request_action, emit_decision, gpu_start_settings, loop_step,
    overlay_placement, present_plan, should_log_state, surface_extent, switch_on,
    switch_override, window_bounds, CloseAction, EmitDecision, LoopAction, LoopEvent, LoopState,
    PresentPlan, StateKey, CADENCE_PERIOD_MICROS, CONTROL_PANEL_LABEL, FALLBACK_HEIGHT,
    FALLBACK_WIDTH, OVERLAY_LABEL,
};
use luminos::shaders::{interpolation_method_for, is_bgra_format, InterpolationMethod};
use luminos::state::{InterpolationMode, MagnificationMode, PixelFormat, ScreenRect};
use luminos::tray::{
    menu_action, panel_toggle, session_bus_usable, tray_advance, MenuAction, PanelToggle,
    TrayStage, TrayStep, MENU_ID_QUIT, MENU_ID_TOGGLE, TRAY_DEGRADED_MARKER, TRAY_READY_MARKER,
};

#[test]
fn app_overlay_label_is_overlay() {
    assert_eq!(OVERLAY_LABEL, "overlay");
}

#[test]
fn app_cadence_period_is_about_60hz() {
    assert!(CADENCE_PERIOD_MICROS >= 16_000);
    assert!(CADENCE_PERIOD_MICROS <= 17_000);
}

#[test]
fn compositor_running_does_not_panic() {
    let _ = compositor_running_from(None);
    let _ = compositor_selection_name(0);
}

#[test]
fn compositor_selection_name_and_owner() {
    assert_eq!(compositor_selection_name(0), "_NET_WM_CM_S0");
    assert_eq!(compositor_selection_name(12), "_NET_WM_CM_S12");
    assert!(!compositor_running_from(None));
    assert!(!compositor_running_from(Some(0)));
    assert!(compositor_running_from(Some(0x0040_0001)));
}

#[test]
fn tray_menu_ids_are_stable() {
    assert_eq!(MENU_ID_TOGGLE, "toggle");
    assert_eq!(MENU_ID_QUIT, "quit");
}

#[test]
fn tray_markers_are_distinct() {
    assert_ne!(TRAY_READY_MARKER, TRAY_DEGRADED_MARKER);
    assert!(TRAY_READY_MARKER.starts_with("tray="));
    assert!(TRAY_DEGRADED_MARKER.starts_with("tray="));
}

#[test]
fn tray_menu_routing() {
    assert_eq!(menu_action("toggle"), MenuAction::TogglePanel);
    assert_eq!(menu_action("quit"), MenuAction::Quit);
    assert_eq!(menu_action("about"), MenuAction::Ignore);
    assert_eq!(menu_action(""), MenuAction::Ignore);
}

#[test]
fn tray_toggle_shows_when_visibility_unknown() {
    assert_eq!(panel_toggle(Some(true)), PanelToggle::Hide);
    assert_eq!(panel_toggle(Some(false)), PanelToggle::Show);
    assert_eq!(panel_toggle(None), PanelToggle::Show);
}

#[test]
fn tray_session_bus_detection() {
    assert!(session_bus_usable(&Some("unix:path=/tmp/test-bus".to_string())));
    assert!(!session_bus_usable(&Some(String::new())));
    assert!(!session_bus_usable(&None));
}

#[test]
fn tray_build_degrades_on_any_failure() {
    assert_eq!(
        tray_advance(TrayStage::CheckBus, true),
        TrayStep::Next(TrayStage::BuildMenu)
    );
    assert_eq!(
        tray_advance(TrayStage::BuildMenu, true),
        TrayStep::Next(TrayStage::BuildIcon)
    );
    assert_eq!(tray_advance(TrayStage::BuildIcon, true), TrayStep::Ready);
    assert_eq!(tray_advance(TrayStage::CheckBus, false), TrayStep::Degraded);
    assert_eq!(tray_advance(TrayStage::BuildMenu, false), TrayStep::Degraded);
    assert_eq!(tray_advance(TrayStage::BuildIcon, false), TrayStep::Degraded);
}

#[test]
fn luminos_event_state_changed_debug() {
    let event = LuminosEvent::StateChanged;
    let debug = format!("{event:?}");
    assert!(
        debug.contains("StateChanged"),
        "Debug output should contain 'StateChanged', got: '{debug}'"
    );
}

#[test]
fn luminos_event_request_exit_debug() {
    let event = LuminosEvent::RequestExit;
    let debug = format!("{event:?}");
    assert!(
        debug.contains("RequestExit"),
        "Debug output should contain 'RequestExit', got: '{debug}'"
    );
}

#[test]
fn luminos_event_is_clone() {
    let event = LuminosEvent::StateChanged;
    let cloned = event.clone();
    assert!(matches!(cloned, LuminosEvent::StateChanged));
}

#[test]
fn luminos_event_is_send() {
    fn assert_send<T: Send>() {}
    assert_send::<LuminosEvent>();
}

#[test]
fn interpolation_method_bilinear_ne_bicubic() {
    assert_ne!(InterpolationMethod::Bilinear, InterpolationMethod::Bicubic);
}

#[test]
fn capture_driver_interpolation_method_bilinear_maps() {
    assert_eq!(
        interpolation_method_for(InterpolationMode::Bilinear),
        InterpolationMethod::Bilinear
    );
}

#[test]
fn capture_driver_interpolation_method_bicubic_maps() {
    assert_eq!(
        interpolation_method_for(InterpolationMode::Bicubic),
        InterpolationMethod::Bicubic
    );
}

#[test]
fn overlay_gpu_is_bgra_true_for_bgra8() {
    assert!(
        is_bgra_format(PixelFormat::Bgra8),
        "Bgra8 frames must set is_bgra=true (shader swizzle)"
    );
}

#[test]
fn overlay_gpu_is_bgra_false_for_rgba8() {
    assert!(
        !is_bgra_format(PixelFormat::Rgba8),
        "Rgba8 frames (shipped X11 capture) must set is_bgra=false"
    );
}

fn generate_test_notifier() -> AppNotifier {
    AppNotifier::new(Arc::new(AtomicBool::new(false)))
}

#[test]
fn app_notifier_sets_dirty_flag() {
    let notifier = generate_test_notifier();
    let flag = notifier.dirty_flag();
    assert!(!flag.load(Ordering::Acquire), "dirty flag should start clear");
    notifier.notify_state_changed();
    assert!(
        flag.load(Ordering::Acquire),
        "notify_state_changed should set the dirty flag"
    );
}

#[test]
fn app_notifier_dirty_flag_is_shared() {
    let notifier = generate_test_notifier();
    let loop_flag = notifier.dirty_flag();
    notifier.notify_state_changed();
    let was_set = loop_flag.swap(false, Ordering::Acquire);
    assert!(was_set, "loop should observe the set flag");
    assert!(
        !notifier.dirty_flag().load(Ordering::Acquire),
        "draining the flag should clear it for all holders"
    );
}

#[test]
fn app_notifier_is_clone_send_sync() {
    fn assert_clone_send_sync<T: Clone + Send + Sync + 'static>() {}
    assert_clone_send_sync::<AppNotifier>();
}

#[test]
fn app_notifier_usable_as_dyn_event_notifier() {
    let notifier = generate_test_notifier();
    let flag = notifier.dirty_flag();
    let dynamic: Box<dyn EventNotifier> = Box::new(notifier);
    dynamic.notify_state_changed();
    assert!(flag.load(Ordering::Acquire));
}

fn resized(label: &str, gpu_present: bool) -> LoopEvent {
    LoopEvent::Resized {
        label: label.to_string(),
        width: 800,
        height: 600,
        gpu_present,
    }
}

#[test]
fn loop_ready_initializes_in_order() {
    let mut state = LoopState::new();
    assert_eq!(
        loop_step(&mut state, &LoopEvent::Ready),
        vec![
            LoopAction::InitOverlayGpu,
            LoopAction::InitWindowManager,
            LoopAction::InitCaptureDriver,
            LoopAction::InitInputPipeline,
        ]
    );
    assert!(!state.is_shut_down());
}

#[test]
fn loop_presents_only_when_dirty() {
    let mut state = LoopState::new();
    assert!(loop_step(&mut state, &LoopEvent::MainEventsCleared { dirty: false }).is_empty());
    assert_eq!(
        loop_step(&mut state, &LoopEvent::MainEventsCleared { dirty: true }),
        vec![
            LoopAction::LogState,
            LoopAction::EmitStateEvents,
            LoopAction::Present,
            LoopAction::PublishFrameTimings,
        ]
    );
}

#[test]
fn loop_resize_only_for_overlay_with_gpu() {
    let mut state = LoopState::new();
    assert_eq!(
        loop_step(&mut state, &resized("overlay", true)),
        vec![
            LoopAction::ResizeOverlay {
                width: 800,
                height: 600
            },
            LoopAction::MarkDirty,
        ]
    );
    assert!(loop_step(&mut state, &resized("overlay", false)).is_empty());
    assert!(loop_step(&mut state, &resized("control-panel", true)).is_empty());
    assert_eq!(
        loop_step(&mut state, &LoopEvent::CloseRequested),
        vec![LoopAction::MarkDirty]
    );
    assert!(loop_step(&mut state, &LoopEvent::Other).is_empty());
}

#[test]
fn loop_teardown_runs_exactly_once() {
    let mut state = LoopState::new();
    let events = [
        LoopEvent::Ready,
        LoopEvent::ExitRequested,
        LoopEvent::MainEventsCleared { dirty: true },
        LoopEvent::Exit,
        LoopEvent::ExitRequested,
    ];
    let mut drops = 0;
    for e in &events {
        for a in loop_step(&mut state, e) {
            if a == LoopAction::DropGpu {
                drops += 1;
            }
        }
    }
    assert_eq!(drops, 1);
    assert!(state.is_shut_down());
    let mut fresh = LoopState::new();
    assert_eq!(
        loop_step(&mut fresh, &LoopEvent::Exit),
        vec![
            LoopAction::SignalShutdown,
            LoopAction::JoinCadenceThread,
            LoopAction::JoinDebugThread,
            LoopAction::DetachInputPipeline,
            LoopAction::DropGpu,
        ]
    );
}

#[test]
fn loop_present_plan() {
    assert_eq!(present_plan(false, true, true), PresentPlan::Skip);
    assert_eq!(present_plan(true, false, true), PresentPlan::Clear);
    assert_eq!(present_plan(true, true, false), PresentPlan::Clear);
    assert_eq!(present_plan(true, true, true), PresentPlan::Magnify);
}

#[test]
fn loop_emit_only_on_change() {
    let mut last = None;
    let none = EmitDecision {
        zoom_changed: false,
        mode_changed: false,
    };
    let z2 = 2.0f32.to_bits();
    let z3 = 3.0f32.to_bits();
    assert_eq!(emit_decision(&mut last, z2, MagnificationMode::FullScreen), none);
    assert_eq!(last, Some((z2, MagnificationMode::FullScreen)));
    assert_eq!(emit_decision(&mut last, z2, MagnificationMode::FullScreen), none);
    assert_eq!(
        emit_decision(&mut last, z3, MagnificationMode::FullScreen),
        EmitDecision {
            zoom_changed: true,
            mode_changed: false
        }
    );
    assert_eq!(
        emit_decision(&mut last, z3, MagnificationMode::Lens),
        EmitDecision {
            zoom_changed: false,
            mode_changed: true
        }
    );
    assert_eq!(
        emit_decision(&mut last, z2, MagnificationMode::Docked),
        EmitDecision {
            zoom_changed: true,
            mode_changed: true
        }
    );
}

#[test]
fn loop_state_log_dedup() {
    let key = StateKey {
        mouse_x: 10,
        mouse_y: 20,
        zoom_bits: 2.0f32.to_bits(),
        active: true,
    };
    let mut last = None;
    assert!(!should_log_state(false, &mut last, key));
    assert_eq!(last, None);
    assert!(should_log_state(true, &mut last, key));
    assert!(!should_log_state(true, &mut last, key));
    let moved = StateKey { mouse_x: 11, ..key };
    assert!(should_log_state(true, &mut last, moved));
    assert_eq!(last, Some(moved));
}

#[test]
fn loop_close_request_decisions() {
    assert_eq!(close_request_action("overlay", Some(true)), CloseAction::Ignore);
    assert_eq!(
        close_request_action(CONTROL_PANEL_LABEL, Some(true)),
        CloseAction::HideToTray
    );
    assert_eq!(
        close_request_action(CONTROL_PANEL_LABEL, Some(false)),
        CloseAction::ExitApp
    );
    assert_eq!(
        close_request_action(CONTROL_PANEL_LABEL, None),
        CloseAction::ExitApp
    );
}

#[test]
fn loop_geometry_fallbacks() {
    assert_eq!(
        window_bounds(None, None),
        ScreenRect {
            x: 0,
            y: 0,
            width: FALLBACK_WIDTH,
            height: FALLBACK_HEIGHT
        }
    );
    assert_eq!(
        window_bounds(Some((2560, 1440)), Some((-2560, 0))),
        ScreenRect {
            x: -2560,
            y: 0,
            width: 2560,
            height: 1440
        }
    );
    assert_eq!(
        overlay_placement(None),
        ScreenRect {
            x: 0,
            y: 0,
            width: 1920,
            height: 1080
        }
    );
    let m = ScreenRect {
        x: 5,
        y: 6,
        width: 7,
        height: 8,
    };
    assert_eq!(overlay_placement(Some(m)), m);
    assert_eq!(surface_extent(None), (1920, 1080));
    assert_eq!(surface_extent(Some((0, 0))), (1, 1));
    assert_eq!(surface_extent(Some((640, 0))), (640, 1));
}

#[test]
fn loop_gpu_start_settings() {
    assert_eq!(
        gpu_start_settings(Some((InterpolationMode::Bicubic, 30))),
        (InterpolationMethod::Bicubic, 30)
    );
    assert_eq!(gpu_start_settings(None), (InterpolationMethod::Bilinear, 60));
}

#[test]
fn loop_environment_switches() {
    assert!(switch_on(&Some("1".to_string())));
    assert!(!switch_on(&Some("true".to_string())));
    assert!(!switch_on(&Some(String::new())));
    assert!(!switch_on(&None));
    assert_eq!(switch_override(&Some("1".to_string())), Some(true));
    assert_eq!(switch_override(&Some("0".to_string())), Some(false));
    assert_eq!(switch_override(&Some("yes".to_string())), None);
    assert_eq!(switch_override(&None), None);
    assert_eq!(capture_exclusion(false, Some(42)), Some(42));
    assert_eq!(capture_exclusion(true, Some(42)), None);
    assert_eq!(capture_exclusion(false, None), None);
}

fn display(x: i32, y: i32, is_primary: bool) -> DisplayInfo {
    DisplayInfo {
        bounds: ScreenRect {
            x,
            y,
            width: 1920,
            height: 1080,
        },
        is_primary,
    }
}

#[test]
fn capture_display_choice() {
    let overlay = ScreenRect {
        x: 1920,
        y: 0,
        width: 1920,
        height: 1080,
    };
    let displays = [display(0, 0, true), display(1920, 0, false)];
    assert_eq!(choose_display(&displays, overlay), Some(1));
    let elsewhere = ScreenRect { x: 99, ..overlay };
    assert_eq!(choose_display(&displays, elsewhere), Some(0));
    let no_primary = [display(0, 0, false), display(10, 0, false)];
    assert_eq!(choose_display(&no_primary, elsewhere), Some(0));
    let second_primary = [display(0, 0, false), display(10, 0, true)];
    assert_eq!(choose_display(&second_primary, elsewhere), Some(1));
    assert_eq!(choose_display(&[], overlay), None);
}
