//! GPU rendering pipeline error types.
use vstd::prelude::*;
use crate::text::{has_substring, join_text, text_contains};

verus! {

/// Errors that can occur during GPU rendering pipeline operations.
#[derive(Debug, PartialEq, Eq)]
pub enum RenderError {
    /// No compatible GPU adapter was found.
    NoAdapter,
    /// GPU device creation failed.
    DeviceCreation {
        /// Description of the device creation failure.
        message: String,
    },
    /// Surface configuration failed.
    SurfaceConfiguration {
        /// Description of the surface configuration failure.
        message: String,
    },
    /// Surface texture acquisition failed (e.g., window resized, surface lost).
    SurfaceTexture {
        /// Description of the surface texture failure.
        message: String,
    },
    /// Shader compilation failed.
    ShaderCompilation {
        /// Description of the shader compilation failure.
        message: String,
    },
    /// A render pass or command submission failed.
    RenderFailed {
        /// Description of the render failure.
        message: String,
    },
}

/// The human-readable text of a render error.
pub open spec fn render_error_text(e: RenderError) -> Seq<char> {
    match e {
        RenderError::NoAdapter => "no compatible GPU adapter found"@,
        RenderError::DeviceCreation { message } => "GPU device creation failed: "@ + message@,
        RenderError::SurfaceConfiguration { message } => "surface configuration failed: "@ + message@,
        RenderError::SurfaceTexture { message } => "surface texture unavailable: "@ + message@,
        RenderError::ShaderCompilation { message } => "shader compilation failed: "@ + message@,
        RenderError::RenderFailed { message } => "render error: "@ + message@,
    }
}

impl RenderError {
    /// The human-readable description of the error.
    pub fn to_string(&self) -> (r: String)
        ensures
            r@ == render_error_text(*self),
    {
        match self {
            RenderError::NoAdapter => String::from_str("no compatible GPU adapter found"),
            RenderError::DeviceCreation { message } => join_text("GPU device creation failed: ", message.as_str()),
            RenderError::SurfaceConfiguration { message } => join_text("surface configuration failed: ", message.as_str()),
            RenderError::SurfaceTexture { message } => join_text("surface texture unavailable: ", message.as_str()),
            RenderError::ShaderCompilation { message } => join_text("shader compilation failed: ", message.as_str()),
            RenderError::RenderFailed { message } => join_text("render error: ", message.as_str()),
        }
    }
}

/// Whether a render error is a recoverable surface state (`Lost` or
/// `Outdated`), which a single reconfigure-and-retry can clear.
pub fn is_recoverable_surface_error(error: &RenderError) -> (r: bool)
    ensures
        r == match *error {
            RenderError::SurfaceTexture { message } => has_substring(message@, "Lost"@) || has_substring(message@, "Outdated"@),
            _ => false,
        },
{
    match error {
        RenderError::SurfaceTexture { message } => text_contains(message.as_str(), "Lost") || text_contains(message.as_str(), "Outdated"),
        _ => false,
    }
}

} // verus!
