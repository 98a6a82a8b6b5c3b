//! Magnification shader selection.
use vstd::prelude::*;
use crate::state::{InterpolationMode, PixelFormat};

verus! {

/// Selects the magnification interpolation algorithm.
///
/// Bilinear is the default (single texture sample per pixel). Bicubic gives
/// higher quality at higher GPU cost (16 samples per pixel).
#[derive(Debug, Clone, Copy, PartialEq, Eq, Structural)]
pub enum InterpolationMethod {
    /// Single-sample bilinear interpolation (hardware texture filtering).
    Bilinear,
    /// 4x4 Catmull-Rom bicubic interpolation (16 manual texture lookups).
    Bicubic,
}

/// Maps the persisted [`InterpolationMode`] to the shader
/// [`InterpolationMethod`].
pub fn interpolation_method_for(mode: InterpolationMode) -> (r: InterpolationMethod)
    ensures
        r == match mode {
            InterpolationMode::Bilinear => InterpolationMethod::Bilinear,
            InterpolationMode::Bicubic => InterpolationMethod::Bicubic,
        },
{
    match mode {
        InterpolationMode::Bilinear => InterpolationMethod::Bilinear,
        InterpolationMode::Bicubic => InterpolationMethod::Bicubic,
    }
}

/// Whether captured pixels are BGRA, so the magnify shader must swizzle.
pub fn is_bgra_format(format: PixelFormat) -> (r: bool)
    ensures
        r == (format == PixelFormat::Bgra8),
{
    match format {
        PixelFormat::Bgra8 => true,
        PixelFormat::Rgba8 => false,
    }
}

} // verus!
