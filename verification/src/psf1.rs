//! The legacy PSF1 layout: a 4-byte header followed by a table of exactly
//! 256 glyphs, each 8 pixels wide and `char_size` bytes (rows) tall.

use vstd::prelude::*;

use crate::Error;

verus! {

/// Holds iff `d` begins with the two PSF1 signature bytes.
pub open spec fn psf1_magic_ok(d: Seq<u8>) -> bool {
    d.len() >= 2 && d[0] == 0x36u8 && d[1] == 0x04u8
}

/// First byte past the 256-entry glyph table of a PSF1 font whose glyphs
/// occupy `char_size` bytes each. The table starts right after the
/// 4-byte header.
pub open spec fn psf1_table_end(char_size: u8) -> int {
    4 + 256 * (char_size as int)
}

/// The interpreted PSF1 header: 4 bytes on the wire (two signature
/// bytes, then `mode` and `char_size`).
pub struct PSF1Header {
    /// Reserved mode flags; retained but not interpreted.
    pub mode: u8,
    /// Bytes per glyph bitmap; the glyph height in rows, at 8 pixels a row.
    pub char_size: u8,
}

/// The header that a buffer of at least 4 bytes declares.
pub open spec fn spec_psf1_header(d: Seq<u8>) -> PSF1Header
    recommends
        d.len() >= 4,
{
    PSF1Header { mode: d[2], char_size: d[3] }
}

/// A decoder for one PSF1 buffer: a borrowed view of the raw bytes
/// together with the header fields read out of them.
pub struct PSF1Font<'a> {
    pub data: &'a [u8],
    pub header: PSF1Header,
}

impl<'a> PSF1Font<'a> {
    /// Well-formedness: the buffer carries the PSF1 signature and is long
    /// enough for the whole 256-entry glyph table, so every in-range
    /// glyph window lies inside it.
    pub open spec fn wf(self) -> bool {
        &&& psf1_magic_ok(self.data@)
        &&& self.data@.len() >= psf1_table_end(self.header.char_size)
    }

    /// Whether parsing `d` succeeds.
    pub open spec fn parse_ok(d: Seq<u8>) -> bool {
        &&& d.len() >= 4
        &&& psf1_magic_ok(d)
        &&& d.len() >= psf1_table_end(d[3])
    }

    /// The error that parsing `d` reports when it fails.
    pub open spec fn parse_err(d: Seq<u8>) -> Error
        recommends
            !Self::parse_ok(d),
    {
        if d.len() < 4 {
            Error::OutOfBounds
        } else if !psf1_magic_ok(d) {
            Error::InvalidMagic
        } else {
            Error::OutOfBounds
        }
    }

    /// `self` is exactly the decoder that parsing `d` yields.
    pub open spec fn parsed_from(self, d: Seq<u8>) -> bool {
        &&& Self::parse_ok(d)
        &&& self.data@ == d
        &&& self.header == spec_psf1_header(d)
    }

    /// Byte offset of glyph `index` within the buffer.
    pub open spec fn glyph_start(self, index: int) -> int {
        4 + index * (self.header.char_size as int)
    }

    /// The glyph window that `index` selects: `char_size` bytes starting
    /// at `4 + index * char_size`, or nothing when the index lies outside
    /// the 256-entry table.
    pub open spec fn spec_glyph(self, index: int) -> Option<Seq<u8>> {
        if 0 <= index < 256 {
            Some(
                self.data@.subrange(
                    self.glyph_start(index),
                    self.glyph_start(index) + self.header.char_size,
                ),
            )
        } else {
            None
        }
    }

    /// Validates `data` against the PSF1 layout. The size check covers the
    /// entire glyph table, so a decoder is returned only when all 256
    /// glyph windows fit in the buffer.
    pub fn parse(data: &'a [u8]) -> (r: Result<Self, Error>)
        ensures
            match r {
                Ok(f) => Self::parse_ok(data@) && f.parsed_from(data@) && f.wf(),
                Err(e) => !Self::parse_ok(data@) && e == Self::parse_err(data@),
            },
    {
        if data.len() < 4 {
            return Err(Error::OutOfBounds);
        }

        if !(data[0] == 0x36 && data[1] == 0x04) {
            return Err(Error::InvalidMagic);
        }

        let header = PSF1Header { mode: data[2], char_size: data[3] };
        let table_end: usize = 4 + 256 * (header.char_size as usize);
        if data.len() < table_end {
            return Err(Error::OutOfBounds);
        }

        Ok(PSF1Font { data, header })
    }

    /// Glyph dimensions in pixels: PSF1 glyphs are always 8 wide, and
    /// `char_size` rows tall.
    pub fn glyph_size(&self) -> (r: (u32, u32))
        ensures
            r == (8u32, self.header.char_size as u32),
    {
        (8, self.header.char_size as u32)
    }

    /// A PSF1 glyph table always holds exactly 256 entries.
    pub fn glyph_count(&self) -> (r: u32)
        ensures
            r == 256u32,
    {
        256
    }

    /// Serves one glyph's bytes. Parsing checked the whole table, so
    /// every index below 256 is served; larger indices yield nothing.
    pub fn glyph(&self, index: u32) -> (r: Option<&[u8]>)
        requires
            self.wf(),
        ensures
            index >= 256 ==> r is None,
            index < 256 ==> (r matches Some(g) && Some(g@) == self.spec_glyph(index as int)),
    {
        if index >= 256 {
            return None;
        }

        proof {
            let i = index as int;
            let c = self.header.char_size as int;
            assert(i * c + c <= 256 * c && i * c <= 255 * 255) by (nonlinear_arith)
                requires
                    0 <= i <= 255,
                    0 <= c <= 255,
            ;
        }
        let length: usize = self.header.char_size as usize;
        let offset: usize = 4 + (index as usize) * length;
        Some(vstd::slice::slice_subrange(self.data, offset, offset + length))
    }
}

} // verus!
