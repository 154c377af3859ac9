//! The extended PSF2 layout: a 32-byte header of little-endian 32-bit
//! fields, followed by a table of `length` glyphs of `char_size` bytes
//! each, starting at byte offset `header_size`.

use vstd::prelude::*;

use crate::Error;
use crate::le_u32_at;
use crate::read_u32_le;

verus! {

/// Holds iff `d` begins with the four PSF2 signature bytes.
pub open spec fn psf2_magic_ok(d: Seq<u8>) -> bool {
    d.len() >= 4 && d[0] == 0x72u8 && d[1] == 0xb5u8 && d[2] == 0x4au8 && d[3] == 0x86u8
}

/// The interpreted PSF2 header: 32 bytes on the wire, the four signature
/// bytes followed by seven little-endian 32-bit fields.
pub struct PSF2Header {
    /// Format version; retained but not interpreted.
    pub version: u32,
    /// Byte offset where the glyph table begins.
    pub header_size: u32,
    /// Format flags; retained but not interpreted.
    pub flags: u32,
    /// Number of glyphs in the table.
    pub length: u32,
    /// Bytes per glyph bitmap.
    pub char_size: u32,
    /// Glyph height in pixels.
    pub height: u32,
    /// Glyph width in pixels.
    pub width: u32,
}

/// The header that a buffer of at least 32 bytes declares.
pub open spec fn spec_psf2_header(d: Seq<u8>) -> PSF2Header
    recommends
        d.len() >= 32,
{
    PSF2Header {
        version: le_u32_at(d, 4) as u32,
        header_size: le_u32_at(d, 8) as u32,
        flags: le_u32_at(d, 12) as u32,
        length: le_u32_at(d, 16) as u32,
        char_size: le_u32_at(d, 20) as u32,
        height: le_u32_at(d, 24) as u32,
        width: le_u32_at(d, 28) as u32,
    }
}

/// The bound that parsing checks the buffer against: the start of the
/// final glyph plus one `char_size` stride. This is one stride short of
/// the full table end whenever `header_size + char_size * length`
/// exceeds the buffer — see `PSF2Font::glyph`.
pub open spec fn psf2_checked_end(h: PSF2Header) -> int {
    h.header_size + h.char_size * (h.length - 1)
}

/// First byte past the full glyph table.
pub open spec fn psf2_table_end(h: PSF2Header) -> int {
    h.header_size + h.char_size * h.length
}

/// A decoder for one PSF2 buffer: a borrowed view of the raw bytes
/// together with the header fields read out of them.
pub struct PSF2Font<'a> {
    pub data: &'a [u8],
    pub header: PSF2Header,
}

impl<'a> PSF2Font<'a> {
    /// Well-formedness: the buffer carries the PSF2 signature, declares
    /// at least one glyph, and reaches the checked bound, so every glyph
    /// window except possibly the final one lies inside it.
    pub open spec fn wf(self) -> bool {
        &&& psf2_magic_ok(self.data@)
        &&& self.data@.len() >= 32
        &&& self.header.length >= 1
        &&& self.data@.len() >= psf2_checked_end(self.header)
    }

    /// Whether parsing `d` succeeds.
    pub open spec fn parse_ok(d: Seq<u8>) -> bool {
        &&& d.len() >= 32
        &&& psf2_magic_ok(d)
        &&& spec_psf2_header(d).length >= 1
        &&& d.len() >= psf2_checked_end(spec_psf2_header(d))
    }

    /// The error that parsing `d` reports when it fails.
    pub open spec fn parse_err(d: Seq<u8>) -> Error
        recommends
            !Self::parse_ok(d),
    {
        if d.len() < 32 {
            Error::OutOfBounds
        } else if !psf2_magic_ok(d) {
            Error::InvalidMagic
        } else {
            Error::OutOfBounds
        }
    }

    /// `self` is exactly the decoder that parsing `d` yields.
    pub open spec fn parsed_from(self, d: Seq<u8>) -> bool {
        &&& Self::parse_ok(d)
        &&& self.data@ == d
        &&& self.header == spec_psf2_header(d)
    }

    /// Byte offset of glyph `index` within the buffer.
    pub open spec fn glyph_start(self, index: int) -> int {
        self.header.header_size + index * self.header.char_size
    }

    /// The glyph window that `index` selects: `char_size` bytes starting
    /// at `header_size + index * char_size`, or nothing when the index
    /// reaches the declared glyph count.
    pub open spec fn spec_glyph(self, index: int) -> Option<Seq<u8>> {
        if 0 <= index < self.header.length {
            Some(
                self.data@.subrange(
                    self.glyph_start(index),
                    self.glyph_start(index) + self.header.char_size,
                ),
            )
        } else {
            None
        }
    }

    /// Validates `data` against the PSF2 header it declares.
    ///
    /// The size check covers `header_size + char_size * (length - 1)`
    /// bytes: up to the start of the final glyph plus one stride measured
    /// from `header_size`, not the full table end. A buffer that ends
    /// exactly there still parses. A header that declares zero glyphs is
    /// rejected as out of bounds: with no final glyph that bound names no
    /// byte at all. The bound itself is computed in 64-bit arithmetic, so
    /// no combination of header fields can wrap it.
    pub fn parse(data: &'a [u8]) -> (r: Result<Self, Error>)
        ensures
            match r {
                Ok(f) => Self::parse_ok(data@) && f.parsed_from(data@) && f.wf(),
                Err(e) => !Self::parse_ok(data@) && e == Self::parse_err(data@),
            },
    {
        if data.len() < 32 {
            return Err(Error::OutOfBounds);
        }

        if !(data[0] == 0x72 && data[1] == 0xb5 && data[2] == 0x4a && data[3] == 0x86) {
            return Err(Error::InvalidMagic);
        }

        let header = PSF2Header {
            version: read_u32_le(data, 4),
            header_size: read_u32_le(data, 8),
            flags: read_u32_le(data, 12),
            length: read_u32_le(data, 16),
            char_size: read_u32_le(data, 20),
            height: read_u32_le(data, 24),
            width: read_u32_le(data, 28),
        };

        if header.length == 0 {
            return Err(Error::OutOfBounds);
        }

        proof {
            let c = header.char_size as int;
            let l = header.length as int;
            assert(c * (l - 1) <= 0xffff_ffff * 0xffff_fffe) by (nonlinear_arith)
                requires
                    0 <= c <= 0xffff_ffff,
                    1 <= l <= 0xffff_ffff,
            ;
        }
        let checked_end: u64 =
            header.header_size as u64 + (header.char_size as u64) * ((header.length - 1) as u64);
        if (data.len() as u64) < checked_end {
            return Err(Error::OutOfBounds);
        }

        Ok(PSF2Font { data, header })
    }

    /// Glyph dimensions in pixels: the header's `width` and `height`
    /// fields verbatim, with no cross-check against `char_size`.
    pub fn glyph_size(&self) -> (r: (u32, u32))
        ensures
            r == (self.header.width, self.header.height),
    {
        (self.header.width, self.header.height)
    }

    /// The glyph count the header declares.
    pub fn glyph_count(&self) -> (r: u32)
        ensures
            r == self.header.length,
    {
        self.header.length
    }

    /// Serves one glyph's bytes; indices at or past the declared count
    /// yield nothing.
    ///
    /// Parsing bounds-checked the table only through the start of the
    /// final glyph plus one stride from `header_size`, which covers every
    /// window but the final one. Serving the final index therefore asks
    /// the caller for the full table bound.
    pub fn glyph(&self, index: u32) -> (r: Option<&[u8]>)
        requires
            self.wf(),
            index + 1 == self.header.length ==> psf2_table_end(self.header) <= self.data@.len(),
        ensures
            index >= self.header.length ==> r is None,
            index < self.header.length ==> (r matches Some(g) && Some(g@) == self.spec_glyph(
                index as int,
            )),
    {
        if index >= self.header.length {
            return None;
        }

        let buffer_len: usize = self.data.len();
        proof {
            let h = self.header.header_size as int;
            let c = self.header.char_size as int;
            let i = index as int;
            let l = self.header.length as int;
            assert(0 <= i * c) by (nonlinear_arith)
                requires
                    0 <= i,
                    0 <= c,
            ;
            if i + 1 < l {
                assert(i * c + c <= c * (l - 1)) by (nonlinear_arith)
                    requires
                        0 <= c,
                        i + 1 <= l - 1,
                ;
            } else {
                assert(i * c + c == c * l) by (nonlinear_arith)
                    requires
                        i + 1 == l,
                ;
            }
            assert(h + i * c + c <= buffer_len);
        }
        let start: u64 =
            self.header.header_size as u64 + (index as u64) * (self.header.char_size as u64);
        let end: u64 = start + self.header.char_size as u64;
        Some(vstd::slice::slice_subrange(self.data, start as usize, end as usize))
    }
}

} // verus!
