//! Bookkeeping for the GPU source texture.
//!
//! [`SourceTextureManager`] decides when the source texture must be
//! reallocated and tracks how many consecutive frames went without a fresh
//! capture. Textures are allocated at 1.5x the requested dimensions so that
//! small size changes from zoom adjustments fit without reallocation; a
//! reallocation happens only when a captured frame exceeds the current
//! capacity in either dimension. The GPU objects themselves are created by
//! the caller from [`SourceTextureManager::capacity`].
use vstd::prelude::*;

verus! {

/// Consecutive stale frames after which a warning is raised (1 second at 60fps).
pub const STALE_FRAME_WARN_THRESHOLD: u32 = 60;

/// `dimension * 1.5` rounded up, saturating at `u32::MAX`.
pub open spec fn over_allocated(dimension: nat) -> nat {
    let scaled = (3 * dimension + 1) / 2;
    if scaled > u32::MAX {
        u32::MAX as nat
    } else {
        scaled
    }
}

/// Computes the over-allocated dimension (1.5x, rounded up, saturating at
/// `u32::MAX`).
pub fn over_allocate(dimension: u32) -> (result: u32)
    ensures
        result == over_allocated(dimension as nat),
        result >= dimension,
{
    let wide: u64 = (dimension as u64) * 3;
    let rounded: u64 = (wide + 1) / 2;
    if rounded > u32::MAX as u64 {
        u32::MAX
    } else {
        rounded as u32
    }
}

/// Capacity and frame bookkeeping for the GPU source texture.
pub struct SourceTextureManager {
    /// Allocated texture width (over-allocated, `>= current_width`).
    capacity_width: u32,
    /// Allocated texture height (over-allocated, `>= current_height`).
    capacity_height: u32,
    /// Width of the most recently uploaded frame.
    current_width: u32,
    /// Height of the most recently uploaded frame.
    current_height: u32,
    /// Consecutive frames for which capture failed.
    stale_frame_count: u32,
}

impl View for SourceTextureManager {
    /// `(capacity, current frame size, stale frame count)`.
    type V = ((u32, u32), (u32, u32), u32);

    closed spec fn view(&self) -> ((u32, u32), (u32, u32), u32) {
        (
            (self.capacity_width, self.capacity_height),
            (self.current_width, self.current_height),
            self.stale_frame_count,
        )
    }
}

impl SourceTextureManager {
    /// The allocated capacity always covers the current frame.
    pub open spec fn wf(&self) -> bool {
        &&& self@.1.0 <= self@.0.0
        &&& self@.1.1 <= self@.0.1
    }

    /// Starts with an over-allocated capacity for the expected initial size.
    pub fn new(initial_width: u32, initial_height: u32) -> (r: SourceTextureManager)
        ensures
            r.wf(),
            r@.0 == (over_allocated(initial_width as nat) as u32, over_allocated(initial_height as nat) as u32),
            r@.1 == (initial_width, initial_height),
            r@.2 == 0,
    {
        SourceTextureManager {
            capacity_width: over_allocate(initial_width),
            capacity_height: over_allocate(initial_height),
            current_width: initial_width,
            current_height: initial_height,
            stale_frame_count: 0,
        }
    }

    /// Accounts for uploading a `width` x `height` frame. Returns whether the
    /// texture had to be reallocated (the frame exceeded the capacity in
    /// either dimension); the new capacity is then the over-allocated frame
    /// size. Resets the stale frame count.
    pub fn upload(&mut self, width: u32, height: u32) -> (reallocated: bool)
        ensures
            reallocated == (width > old(self)@.0.0 || height > old(self)@.0.1),
            final(self)@.0 == if reallocated {
                (over_allocated(width as nat) as u32, over_allocated(height as nat) as u32)
            } else {
                old(self)@.0
            },
            final(self)@.1 == (width, height),
            final(self)@.2 == 0,
            final(self).wf(),
    {
        let reallocated = width > self.capacity_width || height > self.capacity_height;
        if reallocated {
            self.capacity_width = over_allocate(width);
            self.capacity_height = over_allocate(height);
        }
        self.current_width = width;
        self.current_height = height;
        self.stale_frame_count = 0;
        reallocated
    }

    /// Records a capture failure (stale frame). Returns whether the count
    /// just reached [`STALE_FRAME_WARN_THRESHOLD`].
    pub fn record_capture_failure(&mut self) -> (warn: bool)
        requires
            old(self)@.2 < u32::MAX,
        ensures
            final(self)@.0 == old(self)@.0,
            final(self)@.1 == old(self)@.1,
            final(self)@.2 == old(self)@.2 + 1,
            warn == (final(self)@.2 == STALE_FRAME_WARN_THRESHOLD),
    {
        self.stale_frame_count = self.stale_frame_count + 1;
        self.stale_frame_count == STALE_FRAME_WARN_THRESHOLD
    }

    /// The dimensions of the most recently uploaded frame.
    pub fn current_dimensions(&self) -> (r: (u32, u32))
        ensures
            r == self@.1,
    {
        (self.current_width, self.current_height)
    }

    /// The number of consecutive stale frames.
    pub fn stale_frame_count(&self) -> (r: u32)
        ensures
            r == self@.2,
    {
        self.stale_frame_count
    }

    /// The over-allocated texture capacity.
    pub fn capacity(&self) -> (r: (u32, u32))
        ensures
            r == self@.0,
    {
        (self.capacity_width, self.capacity_height)
    }
}

/// Over-allocation leaves headroom: after a reallocation for a
/// `width` x `height` frame, any later frame up to half again as large in
/// each dimension fits the new capacity, so it uploads without another
/// reallocation.
pub proof fn lemma_reallocation_headroom(width: u32, height: u32, next_width: u32, next_height: u32)
    requires
        2 * next_width <= 3 * width,
        2 * next_height <= 3 * height,
    ensures
        next_width <= over_allocated(width as nat),
        next_height <= over_allocated(height as nat),
{
}

} // verus!
