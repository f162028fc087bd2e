//! The boundary to the `wgpu` crate.
//!
//! Everything in this module is taken on trust: the declarations make two of
//! `wgpu`'s types known to the verifier, and the two functions at the end are
//! the only places where the library reads a value of either type.

use vstd::prelude::*;
use crate::surface::AcquireError;

verus! {

/// `wgpu::TextureFormat`, the pixel format of a texture. Its values are
/// opaque to the verifier.
#[verifier::external_type_specification]
#[verifier::external_body]
pub struct ExTextureFormat(wgpu::TextureFormat);

/// `wgpu::SurfaceError`, the error of `wgpu::Surface::get_current_texture`.
/// Its values are opaque to the verifier.
#[verifier::external_type_specification]
#[verifier::external_body]
pub struct ExSurfaceError(wgpu::SurfaceError);

/// What `wgpu::TextureFormat::is_srgb` answers for `format`.
pub uninterp spec fn texture_format_is_srgb(format: wgpu::TextureFormat) -> bool;

/// The variant of `wgpu::SurfaceError` that `error` is, as this library's
/// [`AcquireError`].
pub uninterp spec fn surface_error_kind(error: wgpu::SurfaceError) -> AcquireError;

/// Calls `wgpu::TextureFormat::is_srgb`, which compares the format with its
/// counterpart without the sRGB suffix. Nothing is proved of the call; the
/// contract only gives its answer a name, which is sound because the answer
/// depends on the format alone.
#[verifier::external_body]
pub(crate) fn is_srgb(format: &wgpu::TextureFormat) -> (srgb: bool)
    ensures
        srgb == texture_format_is_srgb(*format),
{
    format.is_srgb()
}

/// Tells the four variants of `wgpu::SurfaceError` apart and hands back the
/// variant of the same name. Nothing is proved of the match; the contract
/// only gives its result a name.
#[verifier::external_body]
pub(crate) fn error_kind(error: &wgpu::SurfaceError) -> (kind: AcquireError)
    ensures
        kind == surface_error_kind(*error),
{
    match error {
        wgpu::SurfaceError::Timeout => AcquireError::Timeout,
        wgpu::SurfaceError::Outdated => AcquireError::Outdated,
        wgpu::SurfaceError::Lost => AcquireError::Lost,
        wgpu::SurfaceError::OutOfMemory => AcquireError::OutOfMemory,
    }
}

} // verus!
