//! The system-tray menu and its graceful degrade.
//!
//! The tray offers a Show/Hide toggle for the control panel and a Quit item.
//! A tray host is reached over the session bus, and not every desktop runs
//! one; where any step of building the tray fails, the application logs the
//! degraded marker, keeps the control panel visible and carries on: building
//! the tray never aborts start-up. The tray only ever hides the control
//! panel, never the overlay.
use vstd::prelude::*;
use crate::text::text_eq;

verus! {

/// Menu item id of the Show/Hide control-panel toggle.
pub const MENU_ID_TOGGLE: &'static str = "toggle";

/// Menu item id of the Quit action.
pub const MENU_ID_QUIT: &'static str = "quit";

/// Marker logged when the tray icon was created.
pub const TRAY_READY_MARKER: &'static str = "tray=ready";

/// Marker logged when the tray degraded (no tray host, or a build error).
pub const TRAY_DEGRADED_MARKER: &'static str = "tray=degraded";

/// Tooltip of the tray icon.
pub const TRAY_TOOLTIP: &'static str = "Luminos";

/// What a tray menu event asks for.
#[derive(Debug, Clone, Copy, PartialEq, Eq, Structural)]
pub enum MenuAction {
    /// Show or hide the control panel.
    TogglePanel,
    /// Quit the application.
    Quit,
    /// An id this menu does not handle.
    Ignore,
}

/// Routes a menu event by its item id.
pub fn menu_action(id: &str) -> (r: MenuAction)
    ensures
        r == (if id@ == MENU_ID_TOGGLE@ {
            MenuAction::TogglePanel
        } else if id@ == MENU_ID_QUIT@ {
            MenuAction::Quit
        } else {
            MenuAction::Ignore
        }),
{
    if text_eq(id, MENU_ID_TOGGLE) {
        MenuAction::TogglePanel
    } else if text_eq(id, MENU_ID_QUIT) {
        MenuAction::Quit
    } else {
        MenuAction::Ignore
    }
}

/// What the tray toggle does to the control panel.
#[derive(Debug, Clone, Copy, PartialEq, Eq, Structural)]
pub enum PanelToggle {
    /// Hide the visible panel.
    Hide,
    /// Show the panel and focus it.
    Show,
}

/// Decides the toggle from the panel's visibility, `None` when the query
/// failed: a visible panel hides; a hidden one, or one whose visibility is
/// unknown, is shown, so the user is never left without a reachable panel.
pub fn panel_toggle(visible: Option<bool>) -> (r: PanelToggle)
    ensures
        r == (if visible == Some(true) {
            PanelToggle::Hide
        } else {
            PanelToggle::Show
        }),
{
    match visible {
        Some(true) => PanelToggle::Hide,
        _ => PanelToggle::Show,
    }
}

/// Whether a session bus is reachable: its address is set and not empty.
pub fn session_bus_usable(address: &Option<String>) -> (r: bool)
    ensures
        r == (match *address {
            Some(a) => a@.len() > 0,
            None => false,
        }),
{
    match address {
        Some(a) => a.as_str().unicode_len() > 0,
        None => false,
    }
}

/// A step of building the tray.
#[derive(Debug, Clone, Copy, PartialEq, Eq, Structural)]
pub enum TrayStage {
    /// Look for a session bus.
    CheckBus,
    /// Build the context menu.
    BuildMenu,
    /// Build the tray icon with its menu.
    BuildIcon,
}

/// Where building the tray goes after a step.
#[derive(Debug, Clone, Copy, PartialEq, Eq, Structural)]
pub enum TrayStep {
    /// Perform this step next.
    Next(TrayStage),
    /// The tray icon exists.
    Ready,
    /// Give up on the tray and keep the control panel visible.
    Degraded,
}

/// The step after `stage` succeeded (`ok`) or failed.
pub open spec fn tray_next(stage: TrayStage, ok: bool) -> TrayStep {
    if !ok {
        TrayStep::Degraded
    } else {
        match stage {
            TrayStage::CheckBus => TrayStep::Next(TrayStage::BuildMenu),
            TrayStage::BuildMenu => TrayStep::Next(TrayStage::BuildIcon),
            TrayStage::BuildIcon => TrayStep::Ready,
        }
    }
}

/// Decides what follows a step of building the tray: any failure degrades
/// at once; success moves from the bus check to the menu, to the icon, and
/// from the icon to a ready tray.
pub fn tray_advance(stage: TrayStage, ok: bool) -> (r: TrayStep)
    ensures
        r == tray_next(stage, ok),
{
    if !ok {
        return TrayStep::Degraded;
    }
    match stage {
        TrayStage::CheckBus => TrayStep::Next(TrayStage::BuildMenu),
        TrayStage::BuildMenu => TrayStep::Next(TrayStage::BuildIcon),
        TrayStage::BuildIcon => TrayStep::Ready,
    }
}

/// Building the tray from the bus check, given whether each step
/// attempted succeeds: it ends ready or degraded after at most three steps,
/// and ready exactly when all three succeed.
pub open spec fn tray_outcome(bus_ok: bool, menu_ok: bool, icon_ok: bool) -> TrayStep {
    match tray_next(TrayStage::CheckBus, bus_ok) {
        TrayStep::Next(s1) => match tray_next(s1, menu_ok) {
            TrayStep::Next(s2) => tray_next(s2, icon_ok),
            other => other,
        },
        other => other,
    }
}

/// Building the tray never aborts start-up: it always ends with a ready tray
/// or a degraded one, and the tray is ready exactly when the session bus,
/// the menu and the icon all succeed.
pub proof fn lemma_tray_never_aborts(bus_ok: bool, menu_ok: bool, icon_ok: bool)
    ensures
        tray_outcome(bus_ok, menu_ok, icon_ok) is Ready || tray_outcome(bus_ok, menu_ok, icon_ok) is Degraded,
        (tray_outcome(bus_ok, menu_ok, icon_ok) is Ready) == (bus_ok && menu_ok && icon_ok),
{
}

} // verus!
