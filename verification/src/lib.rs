//! Decoding of bitmap console fonts in the PC Screen Font (PSF) family.
//!
//! Two incompatible binary layouts are recognised: the legacy PSF1 format
//! (4-byte header, 256 fixed-width glyphs) and the extended PSF2 format
//! (32-byte header with an explicit glyph count). A font handle is a
//! borrowed view of the caller's byte buffer: parsing validates the buffer
//! against the header it declares, and every later glyph lookup serves a
//! byte window of that buffer without copying.

use vstd::prelude::*;

pub mod font;
pub mod psf1;
pub mod psf2;

verus! {

/// Failures that parsing a font buffer can report.
#[derive(Clone, Copy, Debug, PartialEq, Eq, Structural)]
pub enum Error {
    /// The buffer is shorter than its declared header and glyph table require.
    OutOfBounds,
    /// The buffer's leading bytes match no known signature.
    InvalidMagic,
}

/// The value that the four little-endian bytes of `d` starting at `i` encode.
pub open spec fn le_u32_at(d: Seq<u8>, i: int) -> int
    recommends
        0 <= i,
        i + 4 <= d.len(),
{
    d[i] + 0x100 * d[i + 1] + 0x1_0000 * d[i + 2] + 0x100_0000 * d[i + 3]
}

/// Reads the little-endian 32-bit field at byte offset `offset`.
pub fn read_u32_le(data: &[u8], offset: usize) -> (r: u32)
    requires
        offset + 4 <= data@.len(),
    ensures
        r == le_u32_at(data@, offset as int),
{
    let b0 = data[offset] as u32;
    let b1 = data[offset + 1] as u32;
    let b2 = data[offset + 2] as u32;
    let b3 = data[offset + 3] as u32;
    b0 + 0x100 * b1 + 0x1_0000 * b2 + 0x100_0000 * b3
}

} // verus!
