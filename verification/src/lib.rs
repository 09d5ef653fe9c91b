//! Decoding of OTR texture resources.
//!
//! An OTR resource is a byte blob that starts with a fixed 64-byte header.
//! A texture resource continues with a 16-byte descriptor and the pixel
//! payload in one of several hardware pixel encodings.  This crate parses
//! both, correlates palette-indexed textures with their palettes, and
//! transcodes the payload into 8-bit RGBA or gray+alpha rasters.

pub mod bytes;
pub mod convert;
pub mod error;
pub mod header;
pub mod metadata;
pub mod names;
pub mod palette;
pub mod scale;
pub mod search;
pub mod texture;
pub mod transcode;
