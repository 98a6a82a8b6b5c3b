//! Settings schema enumerations: TTS model variants, hotkey actions and key
//! bindings.
use vstd::prelude::*;

verus! {

/// Kokoro ONNX model quantization variant.
#[derive(Debug, Clone, Copy, PartialEq, Eq, Hash, Structural)]
pub enum ModelVariant {
    /// 4-bit quantized model.
    Q4,
    /// 8-bit quantized model (~92MB).
    Q8,
    /// 16-bit floating point model.
    Fp16,
    /// 32-bit floating point model.
    Fp32,
}

/// Hotkey action identifiers.
#[derive(Debug, Clone, Copy, PartialEq, Eq, Hash, Structural)]
pub enum HotkeyAction {
    /// Increase zoom level.
    ZoomIn,
    /// Decrease zoom level.
    ZoomOut,
    /// Reset zoom to default.
    ZoomReset,
    /// Toggle magnification on/off.
    ToggleMagnification,
    /// Cycle through magnification modes.
    CycleMode,
    /// Read aloud what is visible on screen.
    ReadWhatISee,
    /// Read aloud the current text selection.
    ReadSelection,
    /// Stop any active speech.
    StopSpeech,
    /// Visually locate the cursor.
    FindCursor,
}

/// Modifier key names for keybindings.
#[derive(Debug, Clone, Copy, PartialEq, Eq, Hash, Structural)]
pub enum ModifierKey {
    /// Control key.
    Ctrl,
    /// Shift key.
    Shift,
    /// Alt key.
    Alt,
    /// Super/Windows key (Linux/Windows).
    Super,
    /// Meta key (macOS Command).
    Meta,
}

/// A keyboard shortcut binding as persisted in the settings.
#[derive(Debug, Clone, PartialEq, Eq, Hash)]
pub struct KeyBinding {
    /// Key name (e.g., "Equal", "Minus", "F1").
    pub key: String,
    /// Modifier keys required.
    pub modifiers: Vec<ModifierKey>,
}

} // verus!
