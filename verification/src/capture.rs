//! Which display the capture driver magnifies.
//!
//! The overlay is sized to the primary monitor, and the capture driver
//! magnifies the display under it: the display whose origin is the overlay's
//! origin, else the primary display, else the first one listed.
//!
//! Each frame it captures a source region of the magnified size centred on
//! the tracked point and kept inside the display.
use vstd::prelude::*;
use crate::state::{ScreenPoint, ScreenRect};

verus! {

/// A display as listed by the capture backend.
#[derive(Debug, Clone, Copy, PartialEq, Eq, Structural)]
pub struct DisplayInfo {
    /// Bounds in display-global screen coordinates.
    pub bounds: ScreenRect,
    /// This is the primary display.
    pub is_primary: bool,
}

/// Display `d` starts at the origin of `bounds`.
pub open spec fn origin_matches(d: DisplayInfo, bounds: ScreenRect) -> bool {
    d.bounds.x == bounds.x && d.bounds.y == bounds.y
}

/// Some display of `s` starts at the origin of `bounds`.
pub open spec fn has_origin_match(s: Seq<DisplayInfo>, bounds: ScreenRect) -> bool {
    exists|i: int| 0 <= i < s.len() && origin_matches(#[trigger] s[i], bounds)
}

/// Some display of `s` is the primary one.
pub open spec fn has_primary(s: Seq<DisplayInfo>) -> bool {
    exists|i: int| 0 <= i < s.len() && (#[trigger] s[i]).is_primary
}

/// Index `i` is the display to magnify for an overlay at `bounds`: the first
/// display at the overlay's origin; failing that the first primary display;
/// failing that the first display.
pub open spec fn is_chosen_display(s: Seq<DisplayInfo>, bounds: ScreenRect, i: int) -> bool {
    &&& 0 <= i < s.len()
    &&& if has_origin_match(s, bounds) {
        origin_matches(s[i], bounds) && forall|j: int| 0 <= j < i ==> !origin_matches(#[trigger] s[j], bounds)
    } else if has_primary(s) {
        s[i].is_primary && forall|j: int| 0 <= j < i ==> !(#[trigger] s[j]).is_primary
    } else {
        i == 0
    }
}

/// Chooses the display to magnify for an overlay placed at `bounds`, by
/// index into `displays`; `None` when no display is listed.
pub fn choose_display(displays: &[DisplayInfo], bounds: ScreenRect) -> (r: Option<usize>)
    ensures
        match r {
            Some(i) => is_chosen_display(displays@, bounds, i as int),
            None => displays@.len() == 0,
        },
{
    let n = displays.len();
    let mut i: usize = 0;
    while i < n
        invariant
            n == displays@.len(),
            i <= n,
            forall|j: int| 0 <= j < i ==> !origin_matches(#[trigger] displays@[j], bounds),
        decreases n - i,
    {
        let d = displays[i];
        if d.bounds.x == bounds.x && d.bounds.y == bounds.y {
            return Some(i);
        }
        i = i + 1;
    }
    let mut k: usize = 0;
    while k < n
        invariant
            n == displays@.len(),
            k <= n,
            !has_origin_match(displays@, bounds),
            forall|j: int| 0 <= j < k ==> !(#[trigger] displays@[j]).is_primary,
        decreases n - k,
    {
        if displays[k].is_primary {
            return Some(k);
        }
        k = k + 1;
    }
    if n == 0 {
        None
    } else {
        Some(0)
    }
}

/// `v` clamped to `[lo, hi]` (`lo <= hi`).
pub open spec fn clamp_int(v: int, lo: int, hi: int) -> int {
    if v < lo {
        lo
    } else if v > hi {
        hi
    } else {
        v
    }
}

/// The larger of `a` and `b`.
pub open spec fn max_int(a: int, b: int) -> int {
    if a < b {
        b
    } else {
        a
    }
}

/// The left (or top) edge of a source span of `size` centred on `center`
/// and kept within `[start, start + extent - size]` (pinned to `start` when
/// the span is wider than the extent).
pub open spec fn span_start(center: int, size: int, start: int, extent: int) -> int {
    clamp_int(center - size / 2, start, max_int(start, start + extent - size))
}

/// The arithmetic of placing a `size` span centred on `center` in
/// `[start, start + extent]` stays within `i32`.
pub open spec fn span_fits(center: i32, size: i32, start: i32, extent: u32) -> bool {
    &&& extent <= i32::MAX
    &&& start + extent <= i32::MAX
    &&& i32::MIN <= center - size / 2 <= i32::MAX
    &&& i32::MIN <= start + extent - size <= i32::MAX
}

/// One axis of [`place_source_region`].
fn place_span(center: i32, size: i32, start: i32, extent: u32) -> (r: i32)
    requires
        size >= 0,
        span_fits(center, size, start, extent),
    ensures
        r == span_start(center as int, size as int, start as int, extent as int),
{
    let wanted = center - size / 2;
    let last = start + (extent as i32) - size;
    let hi = if last < start { start } else { last };
    if wanted < start {
        start
    } else if wanted > hi {
        hi
    } else {
        wanted
    }
}

/// Places the capture region of `source_width` x `source_height` pixels (the
/// viewport size divided by the zoom, rounded up, computed by the caller)
/// centred on `target` and clamped so that it stays on the display
/// `bounds`; a region larger than the display is pinned to its top-left
/// corner.
pub fn place_source_region(target: ScreenPoint, source_width: i32, source_height: i32, bounds: ScreenRect) -> (r: ScreenRect)
    requires
        source_width >= 0,
        source_height >= 0,
        span_fits(target.x, source_width, bounds.x, bounds.width),
        span_fits(target.y, source_height, bounds.y, bounds.height),
    ensures
        r.x == span_start(target.x as int, source_width as int, bounds.x as int, bounds.width as int),
        r.y == span_start(target.y as int, source_height as int, bounds.y as int, bounds.height as int),
        r.width == source_width,
        r.height == source_height,
{
    ScreenRect {
        x: place_span(target.x, source_width, bounds.x, bounds.width),
        y: place_span(target.y, source_height, bounds.y, bounds.height),
        width: source_width as u32,
        height: source_height as u32,
    }
}

/// A capture region never leaves the display: it starts on the display and,
/// when it is no wider (taller) than the display, it ends on it too; it is
/// centred on the target whenever the display leaves room for that.
pub proof fn lemma_region_on_display(center: int, size: int, start: int, extent: int)
    requires
        0 <= size,
        0 <= extent,
    ensures
        start <= span_start(center, size, start, extent),
        size <= extent ==> span_start(center, size, start, extent) + size <= start + extent,
        start <= center - size / 2 <= start + extent - size ==> span_start(center, size, start, extent)
            == center - size / 2,
{
}

} // verus!
