//! The decisions of the single application event loop.
//!
//! One event loop drives both the control-panel window and the transparent
//! magnification overlay. The code that owns the windows, the GPU surface and
//! the background threads performs the work; this module decides, for each
//! loop event, which work is due ([`loop_step`]), and makes the smaller
//! per-frame decisions: which frames to present and how, when to tell the
//! control panel that the zoom or mode changed, when to log the live state,
//! what to do when a window asks to close, and which geometry to fall back to
//! when a window or monitor cannot be queried.
//!
//! Teardown (joining the background threads and dropping the GPU resources)
//! runs exactly once, however many exit events the loop delivers.
use vstd::prelude::*;
use crate::shaders::{InterpolationMethod, interpolation_method_for};
use crate::state::{InterpolationMode, MagnificationMode, ScreenRect};
use crate::text::text_eq;

verus! {

/// Window label of the magnification overlay.
pub const OVERLAY_LABEL: &'static str = "overlay";

/// Window label of the control panel.
pub const CONTROL_PANEL_LABEL: &'static str = "control-panel";

/// Period of the redraw cadence timer, in microseconds (about 60 Hz).
pub const CADENCE_PERIOD_MICROS: u64 = 16_666;

/// Overlay width used when no monitor or window size can be queried.
pub const FALLBACK_WIDTH: u32 = 1920;

/// Overlay height used when no monitor or window size can be queried.
pub const FALLBACK_HEIGHT: u32 = 1080;

/// Target frame rate used when the settings cannot be read at GPU start-up.
pub const DEFAULT_TARGET_FPS: u32 = 60;

/// An event delivered by the application event loop.
#[derive(Debug, Clone, PartialEq, Eq)]
pub enum LoopEvent {
    /// The loop has started; windows are realized.
    Ready,
    /// The loop drained its queue. `dirty` tells whether the render-dirty flag
    /// was set (the caller drains the flag when it builds this event).
    MainEventsCleared {
        /// The render-dirty flag was set.
        dirty: bool,
    },
    /// A window was resized.
    Resized {
        /// Label of the resized window.
        label: String,
        /// New width in physical pixels.
        width: u32,
        /// New height in physical pixels.
        height: u32,
        /// An overlay GPU surface exists.
        gpu_present: bool,
    },
    /// A window asked to close.
    CloseRequested,
    /// The application was asked to exit.
    ExitRequested,
    /// The loop is exiting.
    Exit,
    /// Any other event.
    Other,
}

/// Work that the event loop performs in response to an event.
#[derive(Debug, Clone, Copy, PartialEq, Eq, Structural)]
pub enum LoopAction {
    /// Build the overlay GPU surface.
    InitOverlayGpu,
    /// Bind the platform window manager to the overlay window.
    InitWindowManager,
    /// Build the screen-capture driver.
    InitCaptureDriver,
    /// Start the input monitor and its processing thread.
    InitInputPipeline,
    /// Log the live state when state logging is enabled and it changed.
    LogState,
    /// Tell the control panel about zoom or mode changes.
    EmitStateEvents,
    /// Present one frame on the overlay.
    Present,
    /// Publish the latest frame-timing summary.
    PublishFrameTimings,
    /// Reconfigure the overlay surface to a new size.
    ResizeOverlay {
        /// New width.
        width: u32,
        /// New height.
        height: u32,
    },
    /// Set the render-dirty flag so the loop keeps pumping.
    MarkDirty,
    /// Raise the shutdown flag that stops the background threads (the
    /// cadence timer and the debug notifier).
    SignalShutdown,
    /// Join the cadence timer thread.
    JoinCadenceThread,
    /// Join the debug notifier thread.
    JoinDebugThread,
    /// Detach the input pipeline threads.
    DetachInputPipeline,
    /// Drop the GPU resources.
    DropGpu,
}

/// An exit event: `ExitRequested` or `Exit`.
pub open spec fn is_exit_event(e: LoopEvent) -> bool {
    e is ExitRequested || e is Exit
}

/// The teardown sequence, run on the first exit event: stop the background
/// threads, join them, detach the input pipeline, drop the GPU.
pub open spec fn teardown_actions() -> Seq<LoopAction> {
    seq![
        LoopAction::SignalShutdown,
        LoopAction::JoinCadenceThread,
        LoopAction::JoinDebugThread,
        LoopAction::DetachInputPipeline,
        LoopAction::DropGpu,
    ]
}

/// The work due for event `e` when teardown has (`shut_down`) or has not
/// run yet.
pub open spec fn step_actions(shut_down: bool, e: LoopEvent) -> Seq<LoopAction> {
    match e {
        LoopEvent::Ready => seq![
            LoopAction::InitOverlayGpu,
            LoopAction::InitWindowManager,
            LoopAction::InitCaptureDriver,
            LoopAction::InitInputPipeline,
        ],
        LoopEvent::MainEventsCleared { dirty } => if dirty {
            seq![
                LoopAction::LogState,
                LoopAction::EmitStateEvents,
                LoopAction::Present,
                LoopAction::PublishFrameTimings,
            ]
        } else {
            Seq::empty()
        },
        LoopEvent::Resized { label, width, height, gpu_present } => if label@ == OVERLAY_LABEL@
            && gpu_present {
            seq![LoopAction::ResizeOverlay { width, height }, LoopAction::MarkDirty]
        } else {
            Seq::empty()
        },
        LoopEvent::CloseRequested => seq![LoopAction::MarkDirty],
        LoopEvent::ExitRequested | LoopEvent::Exit => if shut_down {
            Seq::empty()
        } else {
            teardown_actions()
        },
        LoopEvent::Other => Seq::empty(),
    }
}

/// All the work done for `events`, in order, starting with teardown done
/// (`shut_down`) or not.
pub open spec fn loop_run(shut_down: bool, events: Seq<LoopEvent>) -> Seq<LoopAction>
    decreases events.len(),
{
    if events.len() == 0 {
        Seq::empty()
    } else {
        step_actions(shut_down, events[0]) + loop_run(
            shut_down || is_exit_event(events[0]),
            events.drop_first(),
        )
    }
}

/// How many times `actions` drops the GPU resources (the last teardown step).
pub open spec fn teardown_count(actions: Seq<LoopAction>) -> nat
    decreases actions.len(),
{
    if actions.len() == 0 {
        0
    } else {
        (if actions[0] is DropGpu {
            1nat
        } else {
            0nat
        }) + teardown_count(actions.drop_first())
    }
}

/// Some event of `events` is an exit event.
pub open spec fn has_exit(events: Seq<LoopEvent>) -> bool {
    exists|i: int| 0 <= i < events.len() && is_exit_event(#[trigger] events[i])
}

/// The loop's own state: whether teardown has run.
pub struct LoopState {
    shut_down: bool,
}

impl View for LoopState {
    type V = bool;

    /// Teardown has run.
    closed spec fn view(&self) -> bool {
        self.shut_down
    }
}

impl LoopState {
    /// A loop that has not torn down yet.
    pub fn new() -> (r: LoopState)
        ensures
            r@ == false,
    {
        LoopState { shut_down: false }
    }

    /// Whether teardown has run.
    pub fn is_shut_down(&self) -> (r: bool)
        ensures
            r == self@,
    {
        self.shut_down
    }
}

/// Decides the work due for `event` and advances the loop state.
///
/// `Ready` initializes the overlay GPU, the window manager, the capture
/// driver and the input pipeline, in that order. A drained dirty flag logs
/// and publishes the state and presents one frame. A resize of the overlay
/// reconfigures its surface when one exists; a close request keeps the loop
/// pumping. The first exit event tears down; later ones do nothing.
pub fn loop_step(state: &mut LoopState, event: &LoopEvent) -> (actions: Vec<LoopAction>)
    ensures
        actions@ == step_actions(old(state)@, *event),
        final(state)@ == (old(state)@ || is_exit_event(*event)),
{
    let mut actions: Vec<LoopAction> = Vec::new();
    match event {
        LoopEvent::Ready => {
            actions.push(LoopAction::InitOverlayGpu);
            actions.push(LoopAction::InitWindowManager);
            actions.push(LoopAction::InitCaptureDriver);
            actions.push(LoopAction::InitInputPipeline);
        },
        LoopEvent::MainEventsCleared { dirty } => {
            if *dirty {
                actions.push(LoopAction::LogState);
                actions.push(LoopAction::EmitStateEvents);
                actions.push(LoopAction::Present);
                actions.push(LoopAction::PublishFrameTimings);
            }
        },
        LoopEvent::Resized { label, width, height, gpu_present } => {
            if text_eq(label.as_str(), OVERLAY_LABEL) && *gpu_present {
                actions.push(LoopAction::ResizeOverlay { width: *width, height: *height });
                actions.push(LoopAction::MarkDirty);
            }
        },
        LoopEvent::CloseRequested => {
            actions.push(LoopAction::MarkDirty);
        },
        LoopEvent::ExitRequested | LoopEvent::Exit => {
            if !state.shut_down {
                state.shut_down = true;
                actions.push(LoopAction::SignalShutdown);
                actions.push(LoopAction::JoinCadenceThread);
                actions.push(LoopAction::JoinDebugThread);
                actions.push(LoopAction::DetachInputPipeline);
                actions.push(LoopAction::DropGpu);
            }
        },
        LoopEvent::Other => {},
    }
    assert(actions@ =~= step_actions(old(state)@, *event));
    actions
}

/// Counting teardowns distributes over concatenation.
proof fn lemma_teardown_count_concat(a: Seq<LoopAction>, b: Seq<LoopAction>)
    ensures
        teardown_count(a + b) == teardown_count(a) + teardown_count(b),
    decreases a.len(),
{
    if a.len() == 0 {
        assert(a + b =~= b);
    } else {
        assert((a + b).drop_first() =~= a.drop_first() + b);
        lemma_teardown_count_concat(a.drop_first(), b);
    }
}

/// The work for one event drops the GPU exactly when it is the first exit
/// event.
proof fn lemma_step_teardown_count(shut_down: bool, e: LoopEvent)
    ensures
        teardown_count(step_actions(shut_down, e)) == if !shut_down && is_exit_event(e) {
            1nat
        } else {
            0nat
        },
{
    reveal_with_fuel(teardown_count, 6);
    let s = step_actions(shut_down, e);
    if s.len() > 0 {
        assert(s.drop_first().len() + 1 == s.len());
    }
    if s.len() > 1 {
        assert(s.drop_first().drop_first() =~= s.subrange(2, s.len() as int));
    }
    if s.len() > 2 {
        assert(s.drop_first().drop_first().drop_first() =~= s.subrange(3, s.len() as int));
    }
    if s.len() > 3 {
        assert(s.drop_first().drop_first().drop_first().drop_first() =~= s.subrange(
            4,
            s.len() as int,
        ));
    }
    if s.len() > 4 {
        assert(s.drop_first().drop_first().drop_first().drop_first().drop_first() =~= s.subrange(
            5,
            s.len() as int,
        ));
    }
}

/// Teardown runs exactly once: over any sequence of loop events, starting
/// from a loop that has not torn down, the GPU resources are dropped once if
/// some event is an exit event and never otherwise. A loop that has already
/// torn down never tears down again.
pub proof fn lemma_teardown_runs_once(shut_down: bool, events: Seq<LoopEvent>)
    ensures
        teardown_count(loop_run(shut_down, events)) == if !shut_down && has_exit(events) {
            1nat
        } else {
            0nat
        },
    decreases events.len(),
{
    if events.len() == 0 {
        assert(!has_exit(events));
    } else {
        let e = events[0];
        let rest = events.drop_first();
        let next = shut_down || is_exit_event(e);
        lemma_step_teardown_count(shut_down, e);
        lemma_teardown_runs_once(next, rest);
        lemma_teardown_count_concat(step_actions(shut_down, e), loop_run(next, rest));
        if has_exit(rest) {
            let i = choose|i: int| 0 <= i < rest.len() && is_exit_event(#[trigger] rest[i]);
            assert(events[i + 1] == rest[i]);
        }
        if has_exit(events) && !is_exit_event(e) {
            let i = choose|i: int| 0 <= i < events.len() && is_exit_event(#[trigger] events[i]);
            assert(i != 0);
            assert(rest[i - 1] == events[i]);
        }
        if is_exit_event(e) {
            assert(is_exit_event(events[0]));
        }
    }
}

/// The first exit event, whichever of `ExitRequested` and `Exit` it is,
/// first raises the shutdown flag that stops the background threads, then
/// joins the cadence and debug threads, detaches the input pipeline and
/// drops the GPU; after that, exit events do nothing.
pub proof fn lemma_exit_tears_down_in_order(shut_down: bool, e: LoopEvent)
    requires
        e is ExitRequested || e is Exit,
    ensures
        !shut_down ==> step_actions(shut_down, e) == seq![
            LoopAction::SignalShutdown,
            LoopAction::JoinCadenceThread,
            LoopAction::JoinDebugThread,
            LoopAction::DetachInputPipeline,
            LoopAction::DropGpu,
        ],
        shut_down ==> step_actions(shut_down, e).len() == 0,
{
}

/// A background thread is joined only after the shutdown flag was raised:
/// over any sequence of events, starting from a loop that has not torn
/// down, every join is preceded by a `SignalShutdown`.
pub proof fn lemma_join_after_signal(events: Seq<LoopEvent>, i: int)
    requires
        0 <= i < loop_run(false, events).len(),
        loop_run(false, events)[i] == LoopAction::JoinCadenceThread || loop_run(false, events)[i]
            == LoopAction::JoinDebugThread,
    ensures
        exists|j: int| 0 <= j < i && loop_run(false, events)[j] == LoopAction::SignalShutdown,
{
    lemma_join_after_signal_from(false, events, i);
}

/// Joins in the run from a loop in state `shut_down`: before teardown, each
/// join follows a signal; after it, none occurs.
proof fn lemma_join_after_signal_from(shut_down: bool, events: Seq<LoopEvent>, i: int)
    requires
        0 <= i < loop_run(shut_down, events).len(),
        loop_run(shut_down, events)[i] == LoopAction::JoinCadenceThread || loop_run(shut_down, events)[i]
            == LoopAction::JoinDebugThread,
    ensures
        !shut_down,
        exists|j: int| 0 <= j < i && loop_run(shut_down, events)[j] == LoopAction::SignalShutdown,
    decreases events.len(),
{
    let run = loop_run(shut_down, events);
    let e = events[0];
    let first = step_actions(shut_down, e);
    let next = shut_down || is_exit_event(e);
    let rest = loop_run(next, events.drop_first());
    assert(run == first + rest);
    if i < first.len() {
        assert(run[i] == first[i]);
        assert(!shut_down && is_exit_event(e));
        assert(first[0] == LoopAction::SignalShutdown);
        assert(i != 0);
        assert(run[0] == first[0]);
    } else {
        assert(run[i] == rest[i - first.len()]);
        lemma_join_after_signal_from(next, events.drop_first(), i - first.len());
        let j = choose|j: int| 0 <= j < i - first.len() && rest[j] == LoopAction::SignalShutdown;
        assert(run[j + first.len()] == rest[j]);
        assert(!is_exit_event(e));
    }
}

/// A frame is presented only when the render-dirty flag was set.
pub proof fn lemma_present_needs_dirty(shut_down: bool, e: LoopEvent)
    ensures
        step_actions(shut_down, e).contains(LoopAction::Present) ==> (e matches LoopEvent::MainEventsCleared { dirty } && dirty),
{
    let s = step_actions(shut_down, e);
    if s.contains(LoopAction::Present) {
        let k = choose|k: int| 0 <= k < s.len() && s[k] == LoopAction::Present;
        assert(s[k] == LoopAction::Present);
    }
}

/// What to show on the overlay for one frame.
#[derive(Debug, Clone, Copy, PartialEq, Eq, Structural)]
pub enum PresentPlan {
    /// No GPU surface: nothing to present.
    Skip,
    /// Present a transparent clear frame.
    Clear,
    /// Capture the tracked region and present it magnified.
    Magnify,
}

/// Decides how to present a frame: nothing without a GPU surface; a clear
/// frame while magnification is off or no capture driver exists; otherwise
/// the magnified capture.
pub fn present_plan(gpu_present: bool, is_active: bool, capture_present: bool) -> (r: PresentPlan)
    ensures
        r == (if !gpu_present {
            PresentPlan::Skip
        } else if !is_active || !capture_present {
            PresentPlan::Clear
        } else {
            PresentPlan::Magnify
        }),
{
    if !gpu_present {
        PresentPlan::Skip
    } else if !is_active || !capture_present {
        PresentPlan::Clear
    } else {
        PresentPlan::Magnify
    }
}

/// Which change notifications to send to the control panel.
#[derive(Debug, Clone, Copy, PartialEq, Eq, Structural)]
pub struct EmitDecision {
    /// Send the new zoom level.
    pub zoom_changed: bool,
    /// Send the new magnification mode.
    pub mode_changed: bool,
}

/// The notifications due when `(zoom_bits, mode)` is observed after `last`.
pub open spec fn emit_spec(last: Option<(u32, MagnificationMode)>, zoom_bits: u32, mode: MagnificationMode) -> EmitDecision {
    match last {
        None => EmitDecision { zoom_changed: false, mode_changed: false },
        Some(p) => EmitDecision { zoom_changed: p.0 != zoom_bits, mode_changed: p.1 != mode },
    }
}

/// Decides which zoom/mode notifications to send for the live
/// `(zoom_bits, mode)`, given the last observed pair, and records the new
/// pair. `zoom_bits` is the bit pattern of the zoom level, so any change of
/// the value counts. The first observation only records (no startup echo).
pub fn emit_decision(last: &mut Option<(u32, MagnificationMode)>, zoom_bits: u32, mode: MagnificationMode) -> (d: EmitDecision)
    ensures
        d == emit_spec(*old(last), zoom_bits, mode),
        *final(last) == Some((zoom_bits, mode)),
{
    let d = match *last {
        None => EmitDecision { zoom_changed: false, mode_changed: false },
        Some((last_zoom, last_mode)) => EmitDecision {
            zoom_changed: last_zoom != zoom_bits,
            mode_changed: last_mode != mode,
        },
    };
    *last = Some((zoom_bits, mode));
    d
}

/// Observing the same zoom and mode again sends nothing, and the first
/// observation sends nothing either.
pub proof fn lemma_emit_only_on_change(last: Option<(u32, MagnificationMode)>, zoom_bits: u32, mode: MagnificationMode)
    ensures
        emit_spec(Some((zoom_bits, mode)), zoom_bits, mode) == (EmitDecision { zoom_changed: false, mode_changed: false }),
        emit_spec(None, zoom_bits, mode) == (EmitDecision { zoom_changed: false, mode_changed: false }),
        (emit_spec(last, zoom_bits, mode).zoom_changed || emit_spec(last, zoom_bits, mode).mode_changed)
            ==> last is Some && last != Some((zoom_bits, mode)),
{
}

/// The live state as logged by the state-observation probe.
#[derive(Debug, Clone, Copy, PartialEq, Eq, Structural)]
pub struct StateKey {
    /// Pointer x.
    pub mouse_x: i32,
    /// Pointer y.
    pub mouse_y: i32,
    /// Bit pattern of the zoom level.
    pub zoom_bits: u32,
    /// Magnification is active.
    pub active: bool,
}

/// Decides whether to log the live state `key`: only when logging is enabled
/// and `key` differs from the last logged state, which is then updated.
pub fn should_log_state(enabled: bool, last: &mut Option<StateKey>, key: StateKey) -> (log: bool)
    ensures
        log == (enabled && *old(last) != Some(key)),
        *final(last) == if log {
            Some(key)
        } else {
            *old(last)
        },
{
    if !enabled {
        return false;
    }
    let same = match last {
        Some(k) => *k == key,
        None => false,
    };
    if same {
        return false;
    }
    *last = Some(key);
    true
}

/// What to do when a window asks to close.
#[derive(Debug, Clone, Copy, PartialEq, Eq, Structural)]
pub enum CloseAction {
    /// Let the window close.
    Ignore,
    /// Quit the whole application (the overlay would otherwise keep the loop
    /// alive headless).
    ExitApp,
    /// Keep the application running: cancel the close and hide the control
    /// panel to the tray.
    HideToTray,
}

/// Decides the response to a close request of window `label`, with the
/// minimize-to-tray setting when the application state is reachable.
///
/// Only the control panel is intercepted: with minimize-to-tray on it hides,
/// otherwise (or when the setting cannot be read) the application exits.
/// The overlay and other windows are never intercepted.
pub fn close_request_action(label: &str, minimize_to_tray: Option<bool>) -> (r: CloseAction)
    ensures
        r == (if label@ != CONTROL_PANEL_LABEL@ {
            CloseAction::Ignore
        } else if minimize_to_tray == Some(true) {
            CloseAction::HideToTray
        } else {
            CloseAction::ExitApp
        }),
{
    if !text_eq(label, CONTROL_PANEL_LABEL) {
        return CloseAction::Ignore;
    }
    match minimize_to_tray {
        Some(true) => CloseAction::HideToTray,
        _ => CloseAction::ExitApp,
    }
}

/// The rectangle of a window from its queried size and position: the
/// fallback size when the size query failed, the origin when the position
/// query failed.
pub fn window_bounds(size: Option<(u32, u32)>, position: Option<(i32, i32)>) -> (r: ScreenRect)
    ensures
        r == (ScreenRect {
            x: match position {
                Some(p) => p.0,
                None => 0,
            },
            y: match position {
                Some(p) => p.1,
                None => 0,
            },
            width: match size {
                Some(s) => s.0,
                None => FALLBACK_WIDTH,
            },
            height: match size {
                Some(s) => s.1,
                None => FALLBACK_HEIGHT,
            },
        }),
{
    let (width, height) = match size {
        Some(s) => s,
        None => (FALLBACK_WIDTH, FALLBACK_HEIGHT),
    };
    let (x, y) = match position {
        Some(p) => p,
        None => (0, 0),
    };
    ScreenRect { x, y, width, height }
}

/// The overlay's placement: the primary monitor's rectangle, or the fallback
/// size at the origin when no monitor could be queried.
pub fn overlay_placement(primary_monitor: Option<ScreenRect>) -> (r: ScreenRect)
    ensures
        r == match primary_monitor {
            Some(m) => m,
            None => ScreenRect { x: 0, y: 0, width: FALLBACK_WIDTH, height: FALLBACK_HEIGHT },
        },
{
    match primary_monitor {
        Some(m) => m,
        None => ScreenRect { x: 0, y: 0, width: FALLBACK_WIDTH, height: FALLBACK_HEIGHT },
    }
}

/// The extent to build the overlay surface with: the window size (the
/// fallback size when it cannot be queried), each side at least one pixel.
pub fn surface_extent(size: Option<(u32, u32)>) -> (r: (u32, u32))
    ensures
        r.0 == (match size {
            Some(s) => if s.0 == 0 { 1 } else { s.0 },
            None => FALLBACK_WIDTH,
        }),
        r.1 == (match size {
            Some(s) => if s.1 == 0 { 1 } else { s.1 },
            None => FALLBACK_HEIGHT,
        }),
{
    let (w, h) = match size {
        Some(s) => s,
        None => (FALLBACK_WIDTH, FALLBACK_HEIGHT),
    };
    (if w == 0 { 1 } else { w }, if h == 0 { 1 } else { h })
}

/// The interpolation method and target frame rate the overlay GPU starts
/// with: those of the settings `(interpolation, target_fps)` when they can be
/// read, bilinear at the default rate otherwise.
pub fn gpu_start_settings(settings: Option<(InterpolationMode, u32)>) -> (r: (InterpolationMethod, u32))
    ensures
        r == match settings {
            Some(s) => (
                match s.0 {
                    InterpolationMode::Bilinear => InterpolationMethod::Bilinear,
                    InterpolationMode::Bicubic => InterpolationMethod::Bicubic,
                },
                s.1,
            ),
            None => (InterpolationMethod::Bilinear, DEFAULT_TARGET_FPS),
        },
{
    match settings {
        Some((mode, fps)) => (interpolation_method_for(mode), fps),
        None => (InterpolationMethod::Bilinear, DEFAULT_TARGET_FPS),
    }
}

/// Whether an opt-in environment switch is on: its value is exactly `1`.
pub fn switch_on(value: &Option<String>) -> (r: bool)
    ensures
        r == (match *value {
            Some(v) => v@ == seq!['1'],
            None => false,
        }),
{
    proof {
        reveal_strlit("1");
        assert("1"@ =~= seq!['1']);
    }
    match value {
        Some(v) => text_eq(v.as_str(), "1"),
        None => false,
    }
}

/// A two-way environment override: `1` forces on, `0` forces off, anything
/// else (or unset) leaves the setting alone.
pub fn switch_override(value: &Option<String>) -> (r: Option<bool>)
    ensures
        r == (match *value {
            Some(v) => if v@ == seq!['1'] {
                Some(true)
            } else if v@ == seq!['0'] {
                Some(false)
            } else {
                None
            },
            None => None,
        }),
{
    proof {
        reveal_strlit("1");
        reveal_strlit("0");
        assert("1"@ =~= seq!['1']);
        assert("0"@ =~= seq!['0']);
    }
    match value {
        Some(v) => if text_eq(v.as_str(), "1") {
            Some(true)
        } else if text_eq(v.as_str(), "0") {
            Some(false)
        } else {
            None
        },
        None => None,
    }
}

/// The overlay window to exclude from screen capture: its id, unless the
/// exclusion was switched off.
pub fn capture_exclusion(exclusion_off: bool, overlay_window: Option<u64>) -> (r: Option<u64>)
    ensures
        r == if exclusion_off {
            None
        } else {
            overlay_window
        },
{
    if exclusion_off {
        None
    } else {
        overlay_window
    }
}

} // verus!
