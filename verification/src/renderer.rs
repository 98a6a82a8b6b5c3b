//! The renderer's frame bookkeeping.
//!
//! Each frame the renderer uploads the captured frame to the source texture,
//! draws the magnified view and presents it, then records how long the frame
//! took. The GPU objects live with the caller; [`RendererState`] holds what
//! the renderer decides with: the viewport size, the source-texture
//! bookkeeping and the frame-timing history.
use vstd::prelude::*;
use crate::frame_timings::{
    CRITICAL_THRESHOLD_NANOS, FrameTime, FrameTimings, HISTORY_LEN, ThresholdAlerts,
    WARN_THRESHOLD_NANOS, p99_of, streak_after, streak_alert,
};
use crate::texture::{SourceTextureManager, over_allocated};

verus! {

/// Viewport size, source-texture bookkeeping and frame timings of the
/// renderer.
pub struct RendererState {
    viewport_width: u32,
    viewport_height: u32,
    textures: SourceTextureManager,
    timings: FrameTimings,
}

impl RendererState {
    /// The overlay viewport size.
    pub closed spec fn viewport(&self) -> (u32, u32) {
        (self.viewport_width, self.viewport_height)
    }

    /// The source-texture bookkeeping.
    pub closed spec fn textures(&self) -> SourceTextureManager {
        self.textures
    }

    /// The frame-timing history.
    pub closed spec fn timings(&self) -> FrameTimings {
        self.timings
    }

    /// The texture capacity covers the current frame and the timing history
    /// is well formed.
    pub open spec fn wf(&self) -> bool {
        self.textures().wf() && self.timings().wf()
    }

    /// Starts with the given viewport. The source region is first estimated
    /// at half the viewport in each dimension (a 2x zoom), and the timing
    /// history is empty.
    pub fn new(viewport_width: u32, viewport_height: u32) -> (r: RendererState)
        ensures
            r.wf(),
            r.viewport() == (viewport_width, viewport_height),
            r.textures()@ == (
                (
                    over_allocated((viewport_width / 2) as nat) as u32,
                    over_allocated((viewport_height / 2) as nat) as u32,
                ),
                (viewport_width / 2, viewport_height / 2),
                0u32,
            ),
            r.timings().recorded() == Seq::<u128>::empty(),
            r.timings().warn_run() == 0,
            r.timings().critical_run() == 0,
    {
        RendererState {
            viewport_width,
            viewport_height,
            textures: SourceTextureManager::new(viewport_width / 2, viewport_height / 2),
            timings: FrameTimings::new(),
        }
    }

    /// Takes a new viewport size; a zero width or height is ignored.
    pub fn resize(&mut self, width: u32, height: u32)
        ensures
            final(self).viewport() == if width > 0 && height > 0 {
                (width, height)
            } else {
                old(self).viewport()
            },
            final(self).textures() == old(self).textures(),
            final(self).timings() == old(self).timings(),
    {
        if width > 0 && height > 0 {
            self.viewport_width = width;
            self.viewport_height = height;
        }
    }

    /// Accounts for uploading a captured `width` x `height` frame; returns
    /// whether the source texture must be reallocated first (see
    /// [`SourceTextureManager::upload`]).
    pub fn upload_frame(&mut self, width: u32, height: u32) -> (reallocated: bool)
        requires
            old(self).wf(),
        ensures
            final(self).wf(),
            final(self).viewport() == old(self).viewport(),
            final(self).timings() == old(self).timings(),
            reallocated == (width > old(self).textures()@.0.0 || height > old(self).textures()@.0.1),
            final(self).textures()@.0 == if reallocated {
                (over_allocated(width as nat) as u32, over_allocated(height as nat) as u32)
            } else {
                old(self).textures()@.0
            },
            final(self).textures()@.1 == (width, height),
            final(self).textures()@.2 == 0,
    {
        self.textures.upload(width, height)
    }

    /// Records the duration of a presented frame (see
    /// [`FrameTimings::record`]).
    pub fn frame_presented(&mut self, elapsed: FrameTime) -> (alerts: ThresholdAlerts)
        requires
            old(self).wf(),
            old(self).timings().warn_run() < u32::MAX,
        ensures
            final(self).wf(),
            final(self).viewport() == old(self).viewport(),
            final(self).textures() == old(self).textures(),
            final(self).timings().recorded() == old(self).timings().recorded().push(elapsed@ as u128),
            ({
                let t = final(self).timings();
                let p = p99_of(t.recent());
                if t.recorded().len() >= HISTORY_LEN {
                    &&& t.warn_run() == streak_after(old(self).timings().warn_run(), p as int, WARN_THRESHOLD_NANOS)
                    &&& t.critical_run() == streak_after(old(self).timings().critical_run(), p as int, CRITICAL_THRESHOLD_NANOS)
                    &&& alerts.warn_fired == streak_alert(old(self).timings().warn_run(), p as int, WARN_THRESHOLD_NANOS)
                    &&& alerts.critical_fired == streak_alert(old(self).timings().critical_run(), p as int, CRITICAL_THRESHOLD_NANOS)
                } else {
                    &&& t.warn_run() == old(self).timings().warn_run()
                    &&& t.critical_run() == old(self).timings().critical_run()
                    &&& !alerts.warn_fired
                    &&& !alerts.critical_fired
                }
            }),
    {
        self.timings.record(elapsed)
    }

    /// Records a capture failure: the next frame reuses the stale texture.
    /// Returns whether the stale streak just reached the warning threshold.
    pub fn handle_capture_failure(&mut self) -> (warn: bool)
        requires
            old(self).textures()@.2 < u32::MAX,
        ensures
            final(self).viewport() == old(self).viewport(),
            final(self).timings() == old(self).timings(),
            final(self).textures()@.0 == old(self).textures()@.0,
            final(self).textures()@.1 == old(self).textures()@.1,
            final(self).textures()@.2 == old(self).textures()@.2 + 1,
            warn == (final(self).textures()@.2 == crate::texture::STALE_FRAME_WARN_THRESHOLD),
    {
        self.textures.record_capture_failure()
    }

    /// The overlay viewport size.
    pub fn viewport_size(&self) -> (r: (u32, u32))
        ensures
            r == self.viewport(),
    {
        (self.viewport_width, self.viewport_height)
    }

    /// The source-texture bookkeeping.
    pub fn texture_state(&self) -> (r: &SourceTextureManager)
        ensures
            *r == self.textures(),
    {
        &self.textures
    }

    /// The frame-timing history.
    pub fn frame_timings(&self) -> (r: &FrameTimings)
        ensures
            *r == self.timings(),
    {
        &self.timings
    }
}

} // verus!
