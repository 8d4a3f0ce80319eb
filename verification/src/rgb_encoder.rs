//! RGB encoder methods.
//!
//! The core asks its embedder how to pack an 8-bit RGB triple into the
//! 32-bit pixels it renders; these are the packings offered out of the box.

use vstd::prelude::*;

verus! {

/// A8R8G8B8 packing of an RGB triple: alpha in the top byte, blue in the
/// low byte, alpha fully opaque.
pub open spec fn spec_encode_a8r8g8b8(r: u8, g: u8, b: u8) -> u32 {
    0xFF000000u32 | ((r as u32) << 16) | ((g as u32) << 8) | (b as u32)
}

/// A8B8G8R8 packing of an RGB triple: alpha in the top byte, red in the
/// low byte, alpha fully opaque.
pub open spec fn spec_encode_a8b8g8a8(r: u8, g: u8, b: u8) -> u32 {
    0xFF000000u32 | ((b as u32) << 16) | ((g as u32) << 8) | (r as u32)
}

/// R8G8B8A8 packing of an RGB triple: red in the top byte, alpha in the
/// low byte, alpha fully opaque.
pub open spec fn spec_encode_r8g8b8a8(r: u8, g: u8, b: u8) -> u32 {
    0x000000FFu32 | ((r as u32) << 24) | ((g as u32) << 16) | ((b as u32) << 8)
}

/// B8G8R8A8 packing of an RGB triple: blue in the top byte, alpha in the
/// low byte, alpha fully opaque.
pub open spec fn spec_encode_b8g8a8a8(r: u8, g: u8, b: u8) -> u32 {
    0x000000FFu32 | ((b as u32) << 24) | ((g as u32) << 16) | ((r as u32) << 8)
}

/// Encode the given color values into A8R8G8B8.
pub fn encode_a8r8g8b8(r: u8, g: u8, b: u8) -> (px: u32)
    ensures
        px == spec_encode_a8r8g8b8(r, g, b),
{
    0xFF000000u32 | ((r as u32) << 16) | ((g as u32) << 8) | (b as u32)
}

/// Encode the given color values into A8B8G8R8.
pub fn encode_a8b8g8a8(r: u8, g: u8, b: u8) -> (px: u32)
    ensures
        px == spec_encode_a8b8g8a8(r, g, b),
{
    0xFF000000u32 | ((b as u32) << 16) | ((g as u32) << 8) | (r as u32)
}

/// Encode the given color values into R8G8B8A8.
pub fn encode_r8g8b8a8(r: u8, g: u8, b: u8) -> (px: u32)
    ensures
        px == spec_encode_r8g8b8a8(r, g, b),
{
    0x000000FFu32 | ((r as u32) << 24) | ((g as u32) << 16) | ((b as u32) << 8)
}

/// Encode the given color values into B8G8R8A8.
pub fn encode_b8g8a8a8(r: u8, g: u8, b: u8) -> (px: u32)
    ensures
        px == spec_encode_b8g8a8a8(r, g, b),
{
    0x000000FFu32 | ((b as u32) << 24) | ((g as u32) << 16) | ((r as u32) << 8)
}

} // verus!
