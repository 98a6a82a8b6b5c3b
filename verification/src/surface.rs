//! Surface format and alpha-mode selection for the overlay swapchain.
use vstd::prelude::*;
use crate::error::RenderError;
use crate::text::has_substring;

verus! {

#[verifier::external_type_specification]
#[verifier::external_body]
pub struct ExTextureFormat(wgpu::TextureFormat);

/// Whether wgpu classifies `format` as an sRGB format.
pub uninterp spec fn srgb_format(format: wgpu::TextureFormat) -> bool;

/// `wgpu::TextureFormat::is_srgb`: whether the format has an sRGB
/// transfer function. Its result is named [`srgb_format`]; nothing more is
/// claimed about which formats those are.
#[verifier::external_body]
fn texture_format_is_srgb(format: &wgpu::TextureFormat) -> (r: bool)
    ensures
        r == srgb_format(*format),
{
    format.is_srgb()
}

/// Composite alpha modes a surface may offer.
#[derive(Debug, Clone, Copy, PartialEq, Eq, Hash, Structural)]
pub enum AlphaMode {
    /// Let the backend choose between `Opaque` and `Inherit`.
    Auto,
    /// Alpha is ignored; the surface is composited opaque.
    Opaque,
    /// Color channels are already multiplied by alpha.
    PreMultiplied,
    /// The compositor multiplies color channels by alpha.
    PostMultiplied,
    /// Alpha handling is left to the native window system.
    Inherit,
}

/// The alpha mode chosen from the available `modes`.
pub open spec fn preferred_alpha_mode(modes: Seq<AlphaMode>) -> AlphaMode {
    if modes.contains(AlphaMode::PreMultiplied) {
        AlphaMode::PreMultiplied
    } else if modes.contains(AlphaMode::PostMultiplied) {
        AlphaMode::PostMultiplied
    } else {
        AlphaMode::Opaque
    }
}

/// Whether `modes` offers `wanted`.
fn offers(modes: &[AlphaMode], wanted: AlphaMode) -> (r: bool)
    ensures
        r == modes@.contains(wanted),
{
    let mut i: usize = 0;
    while i < modes.len()
        invariant
            i <= modes@.len(),
            forall|j: int| 0 <= j < i ==> modes@[j] != wanted,
        decreases modes@.len() - i,
    {
        if modes[i] == wanted {
            assert(modes@[i as int] == wanted);
            return true;
        }
        i = i + 1;
    }
    false
}

/// Selects the composite alpha mode: `PreMultiplied` (best for transparent
/// overlays), else `PostMultiplied`, else `Opaque` (no transparency).
pub fn select_alpha_mode(modes: &[AlphaMode]) -> (r: AlphaMode)
    ensures
        r == preferred_alpha_mode(modes@),
        r == AlphaMode::PreMultiplied || r == AlphaMode::PostMultiplied || r == AlphaMode::Opaque,
        (r == AlphaMode::PreMultiplied) == modes@.contains(AlphaMode::PreMultiplied),
{
    if offers(modes, AlphaMode::PreMultiplied) {
        AlphaMode::PreMultiplied
    } else if offers(modes, AlphaMode::PostMultiplied) {
        AlphaMode::PostMultiplied
    } else {
        AlphaMode::Opaque
    }
}

/// `format` is the one chosen from `formats`: the first sRGB format, or the
/// first format when none is sRGB.
pub open spec fn is_preferred_format(formats: Seq<wgpu::TextureFormat>, format: wgpu::TextureFormat) -> bool {
    exists|i: int|
        0 <= i < formats.len() && formats[i] == format && ({
            ||| srgb_format(formats[i]) && forall|j: int| 0 <= j < i ==> !srgb_format(#[trigger] formats[j])
            ||| i == 0 && forall|j: int| 0 <= j < formats.len() ==> !srgb_format(#[trigger] formats[j])
        })
}

/// Selects the surface texture format, preferring sRGB formats for
/// gamma-correct rendering and falling back to the first available one.
///
/// Fails with [`RenderError::SurfaceConfiguration`] when `formats` is empty.
pub fn select_texture_format(formats: &[wgpu::TextureFormat]) -> (r: Result<wgpu::TextureFormat, RenderError>)
    ensures
        r is Ok <==> formats@.len() > 0,
        r matches Ok(f) ==> is_preferred_format(formats@, f),
        r matches Err(e) ==> (e matches RenderError::SurfaceConfiguration { message } && message@ == "no compatible surface format found"@),
{
    let mut i: usize = 0;
    while i < formats.len()
        invariant
            i <= formats@.len(),
            forall|j: int| 0 <= j < i ==> !srgb_format(#[trigger] formats@[j]),
        decreases formats@.len() - i,
    {
        if texture_format_is_srgb(&formats[i]) {
            let f = formats[i];
            assert(formats@[i as int] == f);
            return Ok(f);
        }
        i = i + 1;
    }
    if formats.len() > 0 {
        let f = formats[0];
        assert(formats@[0] == f);
        Ok(f)
    } else {
        Err(RenderError::SurfaceConfiguration { message: String::from_str("no compatible surface format found") })
    }
}

/// The outcome of asking the surface for its next texture.
#[derive(Debug, Clone, Copy, PartialEq, Eq, Structural)]
pub enum SurfaceStatus {
    /// A texture was acquired.
    Success,
    /// A texture was acquired, but the surface would rather be reconfigured.
    Suboptimal,
    /// Acquiring timed out.
    Timeout,
    /// The window is occluded.
    Occluded,
    /// The surface configuration is outdated.
    Outdated,
    /// The surface was lost.
    Lost,
    /// A validation error was raised.
    Validation,
}

/// What to do after asking the surface for a texture.
#[derive(Debug, Clone, Copy, PartialEq, Eq, Structural)]
pub enum AcquireStep {
    /// Draw into the acquired texture.
    Use,
    /// Reconfigure the surface at its cached size and ask once more.
    ReconfigureAndRetry,
    /// Give up on this frame with an error.
    Fail,
}

/// The step after `status`, on the first attempt or on the retry
/// (`retried`).
pub open spec fn acquire_spec(status: SurfaceStatus, retried: bool) -> AcquireStep {
    match status {
        SurfaceStatus::Success | SurfaceStatus::Suboptimal => AcquireStep::Use,
        SurfaceStatus::Outdated | SurfaceStatus::Lost => if retried {
            AcquireStep::Fail
        } else {
            AcquireStep::ReconfigureAndRetry
        },
        _ => AcquireStep::Fail,
    }
}

/// Decides what to do with a surface status: a suboptimal texture is still
/// used; an outdated or lost surface is reconfigured and retried once; any
/// other status fails the frame.
pub fn acquire_step(status: SurfaceStatus, retried: bool) -> (r: AcquireStep)
    ensures
        r == acquire_spec(status, retried),
        (status == SurfaceStatus::Success || status == SurfaceStatus::Suboptimal) ==> r == AcquireStep::Use,
{
    match status {
        SurfaceStatus::Success | SurfaceStatus::Suboptimal => AcquireStep::Use,
        SurfaceStatus::Outdated | SurfaceStatus::Lost => if retried {
            AcquireStep::Fail
        } else {
            AcquireStep::ReconfigureAndRetry
        },
        _ => AcquireStep::Fail,
    }
}

/// A frame reconfigures the surface at most once: the retry never asks for
/// another retry.
pub proof fn lemma_acquire_retries_at_most_once(status: SurfaceStatus)
    ensures
        acquire_spec(status, true) != AcquireStep::ReconfigureAndRetry,
        acquire_spec(status, false) == AcquireStep::ReconfigureAndRetry ==> (status == SurfaceStatus::Outdated
            || status == SurfaceStatus::Lost),
{
}

/// The name of a surface status, as reported in a
/// [`RenderError::SurfaceTexture`] message.
pub open spec fn status_text(status: SurfaceStatus) -> Seq<char> {
    match status {
        SurfaceStatus::Success => "Success"@,
        SurfaceStatus::Suboptimal => "Suboptimal"@,
        SurfaceStatus::Timeout => "Timeout"@,
        SurfaceStatus::Occluded => "Occluded"@,
        SurfaceStatus::Outdated => "Outdated"@,
        SurfaceStatus::Lost => "Lost"@,
        SurfaceStatus::Validation => "Validation"@,
    }
}

/// The error for a surface status that yielded no texture: a
/// [`RenderError::SurfaceTexture`] naming the status.
pub fn surface_texture_error(status: SurfaceStatus) -> (r: RenderError)
    ensures
        r matches RenderError::SurfaceTexture { message } && message@ == status_text(status),
{
    let name = match status {
        SurfaceStatus::Success => "Success",
        SurfaceStatus::Suboptimal => "Suboptimal",
        SurfaceStatus::Timeout => "Timeout",
        SurfaceStatus::Occluded => "Occluded",
        SurfaceStatus::Outdated => "Outdated",
        SurfaceStatus::Lost => "Lost",
        SurfaceStatus::Validation => "Validation",
    };
    RenderError::SurfaceTexture { message: String::from_str(name) }
}

/// A text in which the first character of `needle` never occurs does not
/// contain `needle`.
proof fn lemma_no_first_char(text: Seq<char>, needle: Seq<char>)
    requires
        needle.len() > 0,
        forall|k: int| 0 <= k < text.len() ==> text[k] != needle[0],
    ensures
        !has_substring(text, needle),
{
    if has_substring(text, needle) {
        let i = choose|i: int|
            0 <= i && i + needle.len() <= text.len() && #[trigger] text.subrange(i, i + needle.len()) == needle;
        assert(text.subrange(i, i + needle.len())[0] == text[i]);
    }
}

/// A surface-texture error made from a status is recoverable (a reconfigure
/// and retry can clear it) exactly when the surface was outdated or lost.
pub proof fn lemma_status_error_recoverable(status: SurfaceStatus)
    ensures
        (has_substring(status_text(status), "Lost"@) || has_substring(status_text(status), "Outdated"@))
            == (status == SurfaceStatus::Outdated || status == SurfaceStatus::Lost),
{
    reveal_strlit("Success");
    reveal_strlit("Suboptimal");
    reveal_strlit("Timeout");
    reveal_strlit("Occluded");
    reveal_strlit("Outdated");
    reveal_strlit("Lost");
    reveal_strlit("Validation");
    let t = status_text(status);
    let lost = "Lost"@;
    let outdated = "Outdated"@;
    match status {
        SurfaceStatus::Lost => {
            assert(t.subrange(0int, 0int + lost.len()) =~= lost);
        },
        SurfaceStatus::Outdated => {
            assert(t.subrange(0int, 0int + outdated.len()) =~= outdated);
        },
        SurfaceStatus::Occluded => {
            lemma_no_first_char(t, lost);
            if has_substring(t, outdated) {
                let i = choose|i: int|
                    0 <= i && i + outdated.len() <= t.len() && #[trigger] t.subrange(i, i + outdated.len()) == outdated;
                assert(i == 0);
                assert(t.subrange(0, 8)[1] != outdated[1]);
            }
        },
        _ => {
            lemma_no_first_char(t, lost);
            lemma_no_first_char(t, outdated);
        },
    }
}

/// The alpha mode chosen is always one that supports the overlay's
/// compositing or the opaque fallback: pre-multiplied exactly when it is
/// offered, post-multiplied exactly when it is offered and pre-multiplied is
/// not, and opaque exactly when neither is offered, whatever else the
/// surface offers.
pub proof fn lemma_alpha_mode_priority(modes: Seq<AlphaMode>)
    ensures
        (preferred_alpha_mode(modes) == AlphaMode::PreMultiplied) == modes.contains(AlphaMode::PreMultiplied),
        (preferred_alpha_mode(modes) == AlphaMode::PostMultiplied) == (!modes.contains(AlphaMode::PreMultiplied)
            && modes.contains(AlphaMode::PostMultiplied)),
        (preferred_alpha_mode(modes) == AlphaMode::Opaque) == (!modes.contains(AlphaMode::PreMultiplied)
            && !modes.contains(AlphaMode::PostMultiplied)),
{
}

/// A status that carries a texture is always used, on the first attempt and
/// on the retry; a status without a texture never is. Only an outdated or
/// lost surface is reconfigured, and only on the first attempt.
pub proof fn lemma_acquire_uses_every_texture(status: SurfaceStatus, retried: bool)
    ensures
        (acquire_spec(status, retried) == AcquireStep::Use) == (status == SurfaceStatus::Success
            || status == SurfaceStatus::Suboptimal),
        (acquire_spec(status, retried) == AcquireStep::ReconfigureAndRetry) == (!retried && (status
            == SurfaceStatus::Outdated || status == SurfaceStatus::Lost)),
{
}

} // verus!
