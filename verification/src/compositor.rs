//! Compositor detection for the overlay transparency warning.
//!
//! Transparency on X11 needs a running compositing manager. By the EWMH
//! convention a compositor owns the selection `_NET_WM_CM_S<screen>` (for
//! example `_NET_WM_CM_S0` for screen 0). Without one the overlay still
//! opens but renders opaque, and the application warns and carries on.
use vstd::prelude::*;
use crate::text::{decimal_digits, decimal_text, join_text};

verus! {

/// Prefix of the compositor-manager selection name; the screen number
/// follows it.
pub const COMPOSITOR_SELECTION_PREFIX: &'static str = "_NET_WM_CM_S";

/// The X11 `None` resource id, `x11rb::NONE` (declared there as `0`): a
/// selection owned by it has no owner.
#[verifier::external_body]
fn no_owner() -> (r: u32)
    ensures
        r == 0,
{
    x11rb::NONE
}

/// The name of the compositor-manager selection of screen `screen`.
pub fn compositor_selection_name(screen: usize) -> (r: String)
    ensures
        r@ == COMPOSITOR_SELECTION_PREFIX@ + decimal_digits(screen as nat),
{
    let digits = decimal_text(screen as u64);
    join_text(COMPOSITOR_SELECTION_PREFIX, digits.as_str())
}

/// Whether a compositor runs, given the owner of the compositor-manager
/// selection, `None` when any step of the query failed (no display, atom or
/// selection error). A failed query counts as no compositor: the
/// conservative answer that warns without failing.
pub fn compositor_running_from(owner: Option<u32>) -> (r: bool)
    ensures
        r == (match owner {
            Some(o) => o != 0,
            None => false,
        }),
{
    match owner {
        Some(o) => o != no_owner(),
        None => false,
    }
}

} // verus!
