//! Runtime enumerations and screen geometry shared across the engine.
//!
//! Defines the display mode, tracking mode, color filter and TTS status
//! enums, and the integer screen coordinates ([`ScreenPoint`],
//! [`ScreenRect`]) that input tracking and capture work in.
use vstd::prelude::*;

verus! {

/// Screen magnification display mode.
#[derive(Debug, Clone, Copy, PartialEq, Eq, Hash, Structural)]
pub enum MagnificationMode {
    /// Entire screen is magnified; overlay covers full display.
    FullScreen,
    /// Magnified view docked to a screen edge.
    Docked,
    /// Magnifying glass lens follows cursor.
    Lens,
}

/// Which element the magnification viewport tracks.
#[derive(Debug, Clone, Copy, PartialEq, Eq, Hash, Structural)]
pub enum TrackingMode {
    /// Viewport follows the mouse cursor.
    Cursor,
    /// Viewport follows the keyboard focus element.
    Focus,
    /// Viewport follows the text insertion caret.
    TextCaret,
}

/// Color filter applied to the magnified view.
#[derive(Debug, Clone, Copy, PartialEq, Eq, Hash, Structural)]
pub enum ColorFilterType {
    /// No color filter (passthrough).
    NoFilter,
    /// Full color inversion.
    Invert,
    /// Inversion that preserves image hues (inverts lightness only).
    SmartInvert,
    /// Converts to grayscale.
    Grayscale,
    /// High-contrast black/white with configurable threshold.
    HighContrast,
    /// User-defined 4x4 color transformation matrix.
    Custom,
}

/// TTS pipeline runtime status.
#[derive(Debug, Clone, Copy, PartialEq, Eq, Hash, Structural)]
pub enum TtsStatus {
    /// No speech in progress, ready for new requests.
    Idle,
    /// Loading a voice model.
    Loading,
    /// Currently synthesizing and playing speech.
    Speaking,
    /// Speech finished synthesizing, audio buffer draining.
    Draining,
    /// An error occurred in the TTS pipeline.
    Error,
}

/// A point in physical screen coordinates.
#[derive(Debug, Clone, Copy, PartialEq, Eq, Hash, Structural)]
pub struct ScreenPoint {
    /// Horizontal coordinate.
    pub x: i32,
    /// Vertical coordinate.
    pub y: i32,
}

/// A rectangle in physical screen coordinates.
#[derive(Debug, Clone, Copy, PartialEq, Eq, Hash, Structural)]
pub struct ScreenRect {
    /// Left edge.
    pub x: i32,
    /// Top edge.
    pub y: i32,
    /// Width in pixels.
    pub width: u32,
    /// Height in pixels.
    pub height: u32,
}

/// Scaling interpolation algorithm selected in the settings.
#[derive(Debug, Clone, Copy, PartialEq, Eq, Hash, Structural)]
pub enum InterpolationMode {
    /// Bilinear filtering.
    Bilinear,
    /// Bicubic filtering.
    Bicubic,
}

/// Channel order of captured pixel data.
#[derive(Debug, Clone, Copy, PartialEq, Eq, Hash, Structural)]
pub enum PixelFormat {
    /// Red, green, blue, alpha bytes.
    Rgba8,
    /// Blue, green, red, alpha bytes.
    Bgra8,
}

} // verus!
