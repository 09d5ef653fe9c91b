//! The ways in which decoding one resource can fail.

use vstd::prelude::*;

verus! {

/// Why a resource could not be decoded.  Every error concerns the one
/// resource at hand; other resources of the same archive are unaffected.
#[derive(Clone, Copy, Debug, PartialEq, Eq, Structural)]
pub enum DecodeError {
    /// The blob is shorter than the 64-byte resource header.
    HeaderTooShort,
    /// The blob is shorter than header and texture descriptor together.
    DescriptorTooShort,
    /// The pixel-format tag is none of the twelve known codes.
    UnknownPixelFormat,
    /// The payload holds fewer bits than format, width and height call for.
    SizeMismatch,
    /// A palette-indexed texture was given no palette.
    PaletteRequired,
    /// No palette could be found for a palette-indexed texture.
    PaletteNotFound,
    /// The format is known but is not transcoded.
    UnsupportedFormat,
}

} // verus!
