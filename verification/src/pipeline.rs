//! Routing of input events to state updates.
//!
//! The input thread turns each [`InputEvent`] into an [`InputEffect`]: a
//! pointer move updates the tracked mouse position, a key press that matches
//! a registered shortcut triggers its [`HotkeyAction`], and everything else
//! (button presses, scrolling, releases, unregistered keys) is ignored. Every
//! effect other than [`InputEffect::Ignore`] changes state, after which the
//! render loop is woken through an [`EventNotifier`].
use vstd::prelude::*;
use crate::input::{hotkey_for, HotkeyMatcher, InputEvent};
use crate::schema::HotkeyAction;
use crate::state::ScreenPoint;

verus! {

/// Wakes the render loop after application state has changed.
pub trait EventNotifier: Send + 'static {
    /// Sends a notification that application state has changed.
    fn notify_state_changed(&self);
}

/// The state update an input event calls for.
#[derive(Debug, Clone, Copy, PartialEq, Eq, Structural)]
pub enum InputEffect {
    /// Store the new pointer position.
    MoveMouse(ScreenPoint),
    /// Run the hotkey action.
    Hotkey(HotkeyAction),
    /// Nothing to do.
    Ignore,
}

impl InputEffect {
    /// Whether the effect changes state, so the render loop must be woken.
    pub fn notifies(&self) -> (r: bool)
        ensures
            r == !(*self is Ignore),
    {
        match self {
            InputEffect::Ignore => false,
            _ => true,
        }
    }
}

/// Decides what an input event does: pointer moves update the mouse
/// position, key events run the matched hotkey (if any), and mouse buttons
/// and scrolling are ignored.
pub fn plan_input_event(event: &InputEvent, matcher: &HotkeyMatcher) -> (r: InputEffect)
    ensures
        r == match *event {
            InputEvent::MouseMoved { position } => InputEffect::MoveMouse(position),
            InputEvent::KeyEvent { .. } => match hotkey_for(matcher@, *event) {
                Some(action) => InputEffect::Hotkey(action),
                None => InputEffect::Ignore,
            },
            _ => InputEffect::Ignore,
        },
{
    match event {
        InputEvent::MouseMoved { position } => InputEffect::MoveMouse(*position),
        InputEvent::KeyEvent { .. } => match matcher.match_event(event) {
            Some(action) => InputEffect::Hotkey(action),
            None => InputEffect::Ignore,
        },
        _ => InputEffect::Ignore,
    }
}

/// The state change a hotkey action makes.
#[derive(Debug, Clone, Copy, PartialEq, Eq, Structural)]
pub enum StateCommand {
    /// Multiply the zoom level by the zoom step (then clamp to the range).
    ZoomInStep,
    /// Divide the zoom level by the zoom step (then clamp to the range).
    ZoomOutStep,
    /// Flip whether magnification is active.
    ToggleMagnification,
    /// Return the zoom level to its default.
    ResetZoom,
    /// The action has no state effect yet.
    Nothing,
}

/// Maps a hotkey action to its state change: zoom in and out step the zoom,
/// the toggle flips magnification, reset restores the default zoom; the
/// other actions (mode cycling, speech, cursor finding) change nothing yet.
pub fn hotkey_command(action: HotkeyAction) -> (r: StateCommand)
    ensures
        r == match action {
            HotkeyAction::ZoomIn => StateCommand::ZoomInStep,
            HotkeyAction::ZoomOut => StateCommand::ZoomOutStep,
            HotkeyAction::ToggleMagnification => StateCommand::ToggleMagnification,
            HotkeyAction::ZoomReset => StateCommand::ResetZoom,
            _ => StateCommand::Nothing,
        },
{
    match action {
        HotkeyAction::ZoomIn => StateCommand::ZoomInStep,
        HotkeyAction::ZoomOut => StateCommand::ZoomOutStep,
        HotkeyAction::ToggleMagnification => StateCommand::ToggleMagnification,
        HotkeyAction::ZoomReset => StateCommand::ResetZoom,
        _ => StateCommand::Nothing,
    }
}

} // verus!
