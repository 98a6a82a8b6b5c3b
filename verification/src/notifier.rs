//! The wake mechanism used by background threads: a shared "render-dirty"
//! flag that the render loop drains once per tick.
use std::sync::Arc;
use std::sync::atomic::AtomicBool;
use std::sync::atomic::Ordering;
use vstd::prelude::*;
use crate::pipeline::EventNotifier;

verus! {

/// Hands out another handle to the same shared flag (`Arc::clone`).
#[verifier::external_body]
fn share_flag(flag: &Arc<AtomicBool>) -> (r: Arc<AtomicBool>)
    ensures
        r == *flag,
{
    Arc::clone(flag)
}

/// A clonable [`EventNotifier`] that wakes the render loop by setting a
/// shared dirty flag; the loop owns a clone of the same flag and clears it
/// when it renders.
#[derive(Clone)]
pub struct AppNotifier {
    dirty: Arc<AtomicBool>,
}

impl AppNotifier {
    /// The shared flag this notifier sets.
    pub closed spec fn flag(&self) -> Arc<AtomicBool> {
        self.dirty
    }

    /// Creates a notifier over the shared dirty flag.
    pub fn new(dirty: Arc<AtomicBool>) -> (r: AppNotifier)
        ensures
            r.flag() == dirty,
    {
        AppNotifier { dirty }
    }

    /// Returns another handle to the shared dirty flag for the run loop to
    /// drain.
    pub fn dirty_flag(&self) -> (r: Arc<AtomicBool>)
        ensures
            r == self.flag(),
    {
        share_flag(&self.dirty)
    }
}

impl EventNotifier for AppNotifier {
    /// Sets the shared flag (release ordering, so a writer's prior state
    /// update is visible to the render that observes the flag).
    fn notify_state_changed(&self) {
        self.dirty.store(true, Ordering::Release);
    }
}

} // verus!
