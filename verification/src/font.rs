//! The format-sniffing font handle: it inspects the signature at the
//! start of a buffer, delegates to whichever decoder owns that layout,
//! and forwards every later query to the decoder that matched.

use vstd::prelude::*;

use crate::Error;
use crate::psf1::PSF1Font;
use crate::psf1::psf1_magic_ok;
use crate::psf1::psf1_table_end;
use crate::psf2::PSF2Font;
use crate::psf2::psf2_checked_end;
use crate::psf2::psf2_magic_ok;
use crate::psf2::psf2_table_end;
use crate::psf2::spec_psf2_header;

verus! {

/// A parsed font of either layout. The variant is decided once, at
/// parse time, and never changes afterwards.
pub enum PSFFont<'a> {
    PSF1Font(PSF1Font<'a>),
    PSF2Font(PSF2Font<'a>),
}

impl<'a> PSFFont<'a> {
    /// The selected decoder is well-formed for its buffer.
    pub open spec fn wf(self) -> bool {
        match self {
            PSFFont::PSF1Font(f) => f.wf(),
            PSFFont::PSF2Font(f) => f.wf(),
        }
    }

    /// Whether parsing `d` succeeds. The two-byte PSF1 signature is
    /// sniffed first; only a buffer that does not carry it is tried
    /// against the PSF2 layout.
    pub open spec fn parse_ok(d: Seq<u8>) -> bool {
        if d.len() < 4 {
            false
        } else if psf1_magic_ok(d) {
            PSF1Font::parse_ok(d)
        } else {
            PSF2Font::parse_ok(d)
        }
    }

    /// The error that parsing `d` reports when it fails.
    pub open spec fn parse_err(d: Seq<u8>) -> Error
        recommends
            !Self::parse_ok(d),
    {
        if d.len() < 4 {
            Error::OutOfBounds
        } else if psf1_magic_ok(d) {
            PSF1Font::parse_err(d)
        } else if d.len() < 32 {
            Error::OutOfBounds
        } else {
            PSF2Font::parse_err(d)
        }
    }

    /// `self` is exactly the handle that parsing `d` yields: the variant
    /// that `d`'s signature selects, holding the decoder parsed from `d`.
    pub open spec fn parsed_from(self, d: Seq<u8>) -> bool {
        match self {
            PSFFont::PSF1Font(f) => psf1_magic_ok(d) && f.parsed_from(d),
            PSFFont::PSF2Font(f) => d.len() >= 4 && !psf1_magic_ok(d) && f.parsed_from(d),
        }
    }

    /// The glyph count the selected decoder declares.
    pub open spec fn spec_glyph_count(self) -> u32 {
        match self {
            PSFFont::PSF1Font(_) => 256,
            PSFFont::PSF2Font(f) => f.header.length,
        }
    }

    /// The glyph dimensions the selected decoder declares.
    pub open spec fn spec_glyph_size(self) -> (u32, u32) {
        match self {
            PSFFont::PSF1Font(f) => (8u32, f.header.char_size as u32),
            PSFFont::PSF2Font(f) => (f.header.width, f.header.height),
        }
    }

    /// The glyph window that `index` selects in the underlying buffer.
    pub open spec fn spec_glyph(self, index: int) -> Option<Seq<u8>> {
        match self {
            PSFFont::PSF1Font(f) => f.spec_glyph(index),
            PSFFont::PSF2Font(f) => f.spec_glyph(index),
        }
    }

    /// PSF1 parsing checks the whole table, so every window fits; PSF2
    /// parsing stops one stride short, so the final window fits only when
    /// the buffer holds the full table.
    pub open spec fn glyph_window_fits(self, index: u32) -> bool {
        match self {
            PSFFont::PSF1Font(_) => true,
            PSFFont::PSF2Font(f) => index + 1 == f.header.length ==> psf2_table_end(f.header)
                <= f.data@.len(),
        }
    }

    /// Sniffs the signature and delegates: a buffer too short for even a
    /// PSF1 header is out of bounds; the PSF1 signature selects the PSF1
    /// decoder; otherwise a buffer too short for a PSF2 header is out of
    /// bounds; the PSF2 signature selects the PSF2 decoder; any other
    /// leading bytes name no known format.
    pub fn parse(data: &'a [u8]) -> (r: Result<Self, Error>)
        ensures
            match r {
                Ok(f) => Self::parse_ok(data@) && f.parsed_from(data@) && f.wf(),
                Err(e) => !Self::parse_ok(data@) && e == Self::parse_err(data@),
            },
    {
        if data.len() < 4 {
            return Err(Error::OutOfBounds);
        }

        if data[0] == 0x36 && data[1] == 0x04 {
            return match PSF1Font::parse(data) {
                Ok(f) => Ok(PSFFont::PSF1Font(f)),
                Err(e) => Err(e),
            };
        }

        if data.len() < 32 {
            return Err(Error::OutOfBounds);
        }

        if data[0] == 0x72 && data[1] == 0xb5 && data[2] == 0x4a && data[3] == 0x86 {
            return match PSF2Font::parse(data) {
                Ok(f) => Ok(PSFFont::PSF2Font(f)),
                Err(e) => Err(e),
            };
        }

        Err(Error::InvalidMagic)
    }

    /// Glyph dimensions in pixels, as the selected decoder reports them.
    pub fn glyph_size(&self) -> (r: (u32, u32))
        ensures
            r == self.spec_glyph_size(),
    {
        match self {
            PSFFont::PSF1Font(f) => f.glyph_size(),
            PSFFont::PSF2Font(f) => f.glyph_size(),
        }
    }

    /// The number of glyphs the font serves.
    pub fn glyph_count(&self) -> (r: u32)
        ensures
            r == self.spec_glyph_count(),
    {
        match self {
            PSFFont::PSF1Font(f) => f.glyph_count(),
            PSFFont::PSF2Font(f) => f.glyph_count(),
        }
    }

    /// Serves one glyph's bytes through the selected decoder; indices at
    /// or past the glyph count yield nothing.
    pub fn glyph(&self, index: u32) -> (r: Option<&[u8]>)
        requires
            self.wf(),
            self.glyph_window_fits(index),
        ensures
            index >= self.spec_glyph_count() ==> r is None,
            index < self.spec_glyph_count() ==> (r matches Some(g) && Some(g@) == self.spec_glyph(
                index as int,
            )),
    {
        match self {
            PSFFont::PSF1Font(f) => f.glyph(index),
            PSFFont::PSF2Font(f) => f.glyph(index),
        }
    }
}

/// Parsing is a pure function of the buffer's bytes: two handles parsed
/// from the same byte sequence select the same layout, report the same
/// glyph count and dimensions, and serve byte-for-byte identical glyph
/// windows at every index.
pub proof fn lemma_parse_deterministic<'a, 'b>(f1: PSFFont<'a>, f2: PSFFont<'b>, d: Seq<u8>)
    requires
        f1.parsed_from(d),
        f2.parsed_from(d),
    ensures
        f1.spec_glyph_count() == f2.spec_glyph_count(),
        f1.spec_glyph_size() == f2.spec_glyph_size(),
        forall|index: int| f1.spec_glyph(index) == f2.spec_glyph(index),
{
    match (f1, f2) {
        (PSFFont::PSF1Font(a), PSFFont::PSF1Font(b)) => {
            assert(a.data@ == b.data@);
            assert(a.header == b.header);
        },
        (PSFFont::PSF2Font(a), PSFFont::PSF2Font(b)) => {
            assert(a.data@ == b.data@);
            assert(a.header == b.header);
        },
        _ => {},
    }
}

/// Every buffer shorter than the 4-byte PSF1 header fails to parse,
/// out of bounds.
pub proof fn lemma_short_buffer_rejected(d: Seq<u8>)
    requires
        d.len() < 4,
    ensures
        !PSFFont::parse_ok(d),
        PSFFont::parse_err(d) == Error::OutOfBounds,
{
}

/// Every buffer that carries the PSF1 signature but is shorter than its
/// full glyph table — 4 header bytes plus 256 glyphs of `char_size`
/// bytes — fails to parse, out of bounds.
pub proof fn lemma_psf1_truncated_rejected(d: Seq<u8>)
    requires
        d.len() >= 4,
        psf1_magic_ok(d),
        d.len() < psf1_table_end(d[3]),
    ensures
        !PSFFont::parse_ok(d),
        PSFFont::parse_err(d) == Error::OutOfBounds,
{
}

/// Every buffer of 32 bytes or more whose leading bytes carry neither
/// signature fails to parse as an invalid magic.
pub proof fn lemma_unknown_signature_rejected(d: Seq<u8>)
    requires
        d.len() >= 32,
        !psf1_magic_ok(d),
        !psf2_magic_ok(d),
    ensures
        !PSFFont::parse_ok(d),
        PSFFont::parse_err(d) == Error::InvalidMagic,
{
}

/// The exact PSF2 size boundary: a buffer that reaches the checked bound
/// `header_size + char_size * (length - 1)` parses, and one that stops a
/// single byte short of it is rejected as out of bounds.
pub proof fn lemma_psf2_size_boundary(d: Seq<u8>)
    requires
        d.len() >= 32,
        !psf1_magic_ok(d),
        psf2_magic_ok(d),
        spec_psf2_header(d).length >= 1,
    ensures
        d.len() >= psf2_checked_end(spec_psf2_header(d)) ==> PSFFont::parse_ok(d),
        d.len() < psf2_checked_end(spec_psf2_header(d)) ==> !PSFFont::parse_ok(d)
            && PSFFont::parse_err(d) == Error::OutOfBounds,
{
}

/// What a handle parsed from a PSF1-signature buffer serves: exactly 256
/// glyphs, 8 pixels wide and `char_size` rows tall, where glyph `i` is
/// the `char_size`-byte window of the buffer at offset `4 + i *
/// char_size`, and every other index is absent.
pub proof fn lemma_psf1_handle_queries(f: PSFFont, d: Seq<u8>)
    requires
        f.parsed_from(d),
        psf1_magic_ok(d),
    ensures
        f.spec_glyph_count() == 256,
        f.spec_glyph_size() == (8u32, d[3] as u32),
        forall|i: int|
            0 <= i < 256 ==> #[trigger] f.spec_glyph(i) == Some(
                d.subrange(4 + i * d[3], 4 + i * d[3] + d[3]),
            ),
        forall|i: int| !(0 <= i < 256) ==> #[trigger] f.spec_glyph(i) is None,
{
}

/// What a handle parsed from a PSF2 buffer serves: the `length`, `width`
/// and `height` the header declares, where glyph `i` is the
/// `char_size`-byte window of the buffer at offset `header_size + i *
/// char_size`, and every other index is absent.
pub proof fn lemma_psf2_handle_queries(f: PSFFont, d: Seq<u8>)
    requires
        f.parsed_from(d),
        !psf1_magic_ok(d),
    ensures
        f.spec_glyph_count() == spec_psf2_header(d).length,
        f.spec_glyph_size() == (spec_psf2_header(d).width, spec_psf2_header(d).height),
        forall|i: int|
            0 <= i < spec_psf2_header(d).length ==> #[trigger] f.spec_glyph(i) == Some(
                d.subrange(
                    spec_psf2_header(d).header_size + i * spec_psf2_header(d).char_size,
                    spec_psf2_header(d).header_size + i * spec_psf2_header(d).char_size
                        + spec_psf2_header(d).char_size,
                ),
            ),
        forall|i: int|
            !(0 <= i < spec_psf2_header(d).length) ==> #[trigger] f.spec_glyph(i) is None,
{
}

} // verus!
