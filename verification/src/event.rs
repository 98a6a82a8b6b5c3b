//! Wake events sent to the render loop from input and control threads.
use vstd::prelude::*;

verus! {

/// Custom event type for inter-thread communication with the render loop.
///
/// Sent from input/control threads to wake the render loop.
#[derive(Debug, Clone, Copy, PartialEq, Eq, Structural)]
pub enum LuminosEvent {
    /// Application state was updated (mouse position, zoom, mode, etc.);
    /// the render loop should redraw with the updated state.
    StateChanged,
    /// Graceful shutdown requested: the render loop should stop the input
    /// monitor, clean up resources, and exit.
    RequestExit,
}

} // verus!
