use std::collections::hash_map::DefaultHasher;
use std::hash::{Hash, Hasher};

use luminos::input::{
    ctrl_alt, HotkeyBinding, HotkeyMatcher, InputEvent, KeyCode, Modifiers, MouseButton,
};
use luminos::pipeline::{hotkey_command, plan_input_event, InputEffect, StateCommand};
use luminos::schema::HotkeyAction;
use luminos::state::ScreenPoint;

fn generate_test_key_event(code: KeyCode, modifiers: Modifiers, pressed: bool) -> InputEvent {
    InputEvent::KeyEvent {
        code,
        pressed,
        modifiers,
    }
}

#[test]
fn modifiers_hash_consistent() {
    let a = Modifiers {
        shift: false,
        ctrl: true,
        alt: true,
        meta: false,
    };
    let b = Modifiers {
        shift: false,
        ctrl: true,
        alt: true,
        meta: false,
    };
    let mut hasher_a = DefaultHasher::new();
    a.hash(&mut hasher_a);
    let mut hasher_b = DefaultHasher::new();
    b.hash(&mut hasher_b);
    assert_eq!(
        hasher_a.finish(),
        hasher_b.finish(),
        "identical Modifiers should produce the same hash"
    );
}

#[test]
fn hotkey_matcher_default_has_seven_bindings() {
    let matcher = HotkeyMatcher::default();
    assert_eq!(
        matcher.binding_count(),
        7,
        "default matcher should have 7 entries (4 actions, 3 with numpad alternatives)"
    );
}

#[test]
fn hotkey_matcher_zoom_in_equal() {
    let matcher = HotkeyMatcher::default();
    let event = generate_test_key_event(KeyCode::Equal, ctrl_alt(), true);
    assert_eq!(matcher.match_event(&event), Some(HotkeyAction::ZoomIn));
}

#[test]
fn hotkey_matcher_zoom_in_numpad_add() {
    let matcher = HotkeyMatcher::default();
    let event = generate_test_key_event(KeyCode::NumpadAdd, ctrl_alt(), true);
    assert_eq!(matcher.match_event(&event), Some(HotkeyAction::ZoomIn));
}

#[test]
fn hotkey_matcher_zoom_out_minus() {
    let matcher = HotkeyMatcher::default();
    let event = generate_test_key_event(KeyCode::Minus, ctrl_alt(), true);
    assert_eq!(matcher.match_event(&event), Some(HotkeyAction::ZoomOut));
}

#[test]
fn hotkey_matcher_zoom_out_numpad_subtract() {
    let matcher = HotkeyMatcher::default();
    let event = generate_test_key_event(KeyCode::NumpadSubtract, ctrl_alt(), true);
    assert_eq!(matcher.match_event(&event), Some(HotkeyAction::ZoomOut));
}

#[test]
fn hotkey_matcher_toggle_8() {
    let matcher = HotkeyMatcher::default();
    let event = generate_test_key_event(KeyCode::Key8, ctrl_alt(), true);
    assert_eq!(
        matcher.match_event(&event),
        Some(HotkeyAction::ToggleMagnification)
    );
}

#[test]
fn hotkey_matcher_reset_key0() {
    let matcher = HotkeyMatcher::default();
    let event = generate_test_key_event(KeyCode::Key0, ctrl_alt(), true);
    assert_eq!(matcher.match_event(&event), Some(HotkeyAction::ZoomReset));
}

#[test]
fn hotkey_matcher_reset_numpad0() {
    let matcher = HotkeyMatcher::default();
    let event = generate_test_key_event(KeyCode::Numpad0, ctrl_alt(), true);
    assert_eq!(matcher.match_event(&event), Some(HotkeyAction::ZoomReset));
}

#[test]
fn hotkey_matcher_wrong_modifiers_returns_none() {
    let matcher = HotkeyMatcher::default();
    let ctrl_shift = Modifiers {
        shift: true,
        ctrl: true,
        alt: false,
        meta: false,
    };
    let event = generate_test_key_event(KeyCode::Equal, ctrl_shift, true);
    assert_eq!(matcher.match_event(&event), None);
}

#[test]
fn hotkey_matcher_extra_modifier_returns_none() {
    let matcher = HotkeyMatcher::default();
    let ctrl_alt_shift = Modifiers {
        shift: true,
        ctrl: true,
        alt: true,
        meta: false,
    };
    let event = generate_test_key_event(KeyCode::Equal, ctrl_alt_shift, true);
    assert_eq!(matcher.match_event(&event), None);
}

#[test]
fn hotkey_matcher_key_release_returns_none() {
    let matcher = HotkeyMatcher::default();
    let event = generate_test_key_event(KeyCode::Equal, ctrl_alt(), false);
    assert_eq!(matcher.match_event(&event), None);
}

#[test]
fn hotkey_matcher_mouse_moved_returns_none() {
    let matcher = HotkeyMatcher::default();
    let event = InputEvent::MouseMoved {
        position: ScreenPoint { x: 100, y: 200 },
    };
    assert_eq!(matcher.match_event(&event), None);
}

#[test]
fn hotkey_matcher_unregistered_key_returns_none() {
    let matcher = HotkeyMatcher::default();
    let event = generate_test_key_event(KeyCode::A, ctrl_alt(), true);
    assert_eq!(matcher.match_event(&event), None);
}

#[test]
fn hotkey_matcher_mouse_button_returns_none() {
    let matcher = HotkeyMatcher::default();
    let event = InputEvent::MouseButton {
        button: MouseButton::Left,
        pressed: true,
        position: ScreenPoint { x: 0, y: 0 },
    };
    assert_eq!(matcher.match_event(&event), None);
}

#[test]
fn hotkey_matcher_scroll_returns_none() {
    let matcher = HotkeyMatcher::default();
    let event = InputEvent::Scroll {
        position: ScreenPoint { x: 0, y: 0 },
    };
    assert_eq!(matcher.match_event(&event), None);
}

#[test]
fn hotkey_matcher_custom_bindings() {
    let meta = Modifiers {
        shift: false,
        ctrl: false,
        alt: false,
        meta: true,
    };
    let matcher = HotkeyMatcher::new(vec![HotkeyBinding {
        code: KeyCode::F5,
        modifiers: meta,
        action: HotkeyAction::ToggleMagnification,
    }]);
    assert_eq!(matcher.binding_count(), 1);
    assert_eq!(
        matcher.match_event(&generate_test_key_event(KeyCode::F5, meta, true)),
        Some(HotkeyAction::ToggleMagnification)
    );
    assert_eq!(
        matcher.match_event(&generate_test_key_event(KeyCode::F5, ctrl_alt(), true)),
        None
    );
}

#[test]
fn pipeline_plan_routes_each_event_kind() {
    let matcher = HotkeyMatcher::default();
    let moved = InputEvent::MouseMoved {
        position: ScreenPoint { x: -5, y: 7 },
    };
    assert_eq!(
        plan_input_event(&moved, &matcher),
        InputEffect::MoveMouse(ScreenPoint { x: -5, y: 7 })
    );
    let zoom = generate_test_key_event(KeyCode::Equal, ctrl_alt(), true);
    assert_eq!(
        plan_input_event(&zoom, &matcher),
        InputEffect::Hotkey(HotkeyAction::ZoomIn)
    );
    let release = generate_test_key_event(KeyCode::Equal, ctrl_alt(), false);
    assert_eq!(plan_input_event(&release, &matcher), InputEffect::Ignore);
    let click = InputEvent::MouseButton {
        button: MouseButton::Right,
        pressed: true,
        position: ScreenPoint { x: 1, y: 1 },
    };
    assert_eq!(plan_input_event(&click, &matcher), InputEffect::Ignore);
    assert!(plan_input_event(&moved, &matcher).notifies());
    assert!(!InputEffect::Ignore.notifies());
}

#[test]
fn hotkey_actions_map_to_state_commands() {
    assert_eq!(hotkey_command(HotkeyAction::ZoomIn), StateCommand::ZoomInStep);
    assert_eq!(hotkey_command(HotkeyAction::ZoomOut), StateCommand::ZoomOutStep);
    assert_eq!(
        hotkey_command(HotkeyAction::ToggleMagnification),
        StateCommand::ToggleMagnification
    );
    assert_eq!(hotkey_command(HotkeyAction::ZoomReset), StateCommand::ResetZoom);
    assert_eq!(hotkey_command(HotkeyAction::CycleMode), StateCommand::Nothing);
    assert_eq!(hotkey_command(HotkeyAction::StopSpeech), StateCommand::Nothing);
}

#[test]
fn hotkey_matcher_later_binding_wins() {
    let m = ctrl_alt();
    let matcher = HotkeyMatcher::new(vec![
        HotkeyBinding {
            code: KeyCode::F1,
            modifiers: m,
            action: HotkeyAction::ZoomIn,
        },
        HotkeyBinding {
            code: KeyCode::F2,
            modifiers: m,
            action: HotkeyAction::ZoomOut,
        },
        HotkeyBinding {
            code: KeyCode::F1,
            modifiers: m,
            action: HotkeyAction::FindCursor,
        },
    ]);
    assert_eq!(matcher.binding_count(), 2);
    assert_eq!(
        matcher.match_event(&generate_test_key_event(KeyCode::F1, m, true)),
        Some(HotkeyAction::FindCursor)
    );
    assert_eq!(
        matcher.match_event(&generate_test_key_event(KeyCode::F2, m, true)),
        Some(HotkeyAction::ZoomOut)
    );
}
