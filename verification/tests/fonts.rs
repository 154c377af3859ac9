use psf::Error;
use psf::font::PSFFont;
use psf::psf1::PSF1Font;
use psf::psf2::PSF2Font;
use psf::read_u32_le;

/// A PSF1 buffer: 4-byte header, then 256 glyphs of `char_size` bytes,
/// where byte `j` of glyph `i` is `pattern(i, j)`.
fn psf1_buffer(mode: u8, char_size: u8, pattern: fn(usize, usize) -> u8) -> Vec<u8> {
    let mut buf = vec![0x36, 0x04, mode, char_size];
    for i in 0..256usize {
        for j in 0..char_size as usize {
            buf.push(pattern(i, j));
        }
    }
    buf
}

fn push_le(buf: &mut Vec<u8>, v: u32) {
    buf.push((v & 0xff) as u8);
    buf.push(((v >> 8) & 0xff) as u8);
    buf.push(((v >> 16) & 0xff) as u8);
    buf.push(((v >> 24) & 0xff) as u8);
}

/// A PSF2 buffer: 32-byte header, then `length` glyphs of `char_size`
/// bytes, where byte `j` of glyph `i` is `pattern(i, j)`.
fn psf2_buffer(
    length: u32,
    char_size: u32,
    width: u32,
    height: u32,
    pattern: fn(usize, usize) -> u8,
) -> Vec<u8> {
    let mut buf = vec![0x72, 0xb5, 0x4a, 0x86];
    push_le(&mut buf, 0); // version
    push_le(&mut buf, 32); // header_size
    push_le(&mut buf, 0); // flags
    push_le(&mut buf, length);
    push_le(&mut buf, char_size);
    push_le(&mut buf, height);
    push_le(&mut buf, width);
    for i in 0..length as usize {
        for j in 0..char_size as usize {
            buf.push(pattern(i, j));
        }
    }
    buf
}

fn expect_err(r: Result<PSFFont, Error>, expected: Error) {
    match r {
        Ok(_) => panic!("expected {:?}, got a parsed font", expected),
        Err(e) => assert_eq!(e, expected),
    }
}

#[test]
fn parse_rejects_buffers_shorter_than_psf1_header() {
    expect_err(PSFFont::parse(&[]), Error::OutOfBounds);
    expect_err(PSFFont::parse(&[0x36]), Error::OutOfBounds);
    expect_err(PSFFont::parse(&[0x36, 0x04]), Error::OutOfBounds);
    expect_err(PSFFont::parse(&[0x36, 0x04, 0x00]), Error::OutOfBounds);
    expect_err(PSFFont::parse(&[0x72, 0xb5, 0x4a]), Error::OutOfBounds);
}

#[test]
fn psf1_truncated_table_is_out_of_bounds() {
    let full = psf1_buffer(0, 8, |_, _| 0xaa);
    assert_eq!(full.len(), 4 + 8 * 256);
    expect_err(PSFFont::parse(&full[..full.len() - 1]), Error::OutOfBounds);
    // A bare header that declares a non-empty table is also too short.
    expect_err(PSFFont::parse(&[0x36, 0x04, 0x00, 0x01]), Error::OutOfBounds);
}

#[test]
fn psf1_well_formed_queries() {
    let buf = psf1_buffer(0, 2, |i, j| (i ^ (j << 4)) as u8);
    let font = PSFFont::parse(&buf).ok().expect("well-formed PSF1 buffer must parse");
    assert_eq!(font.glyph_count(), 256);
    assert_eq!(font.glyph_size(), (8, 2));
    for i in 0..256usize {
        let glyph = font.glyph(i as u32).expect("every index below 256 is served");
        assert_eq!(glyph.len(), 2);
        assert_eq!(glyph, &buf[4 + i * 2..4 + i * 2 + 2]);
        assert_eq!(glyph[0], (i ^ 0) as u8);
        assert_eq!(glyph[1], (i ^ 0x10) as u8);
    }
    assert!(font.glyph(256).is_none());
    assert!(font.glyph(u32::MAX).is_none());
}

#[test]
fn psf1_char_size_zero_is_an_exact_fit() {
    let buf = [0x36, 0x04, 0x07, 0x00];
    let font = PSFFont::parse(&buf).ok().expect("a zero char_size needs no table bytes");
    assert_eq!(font.glyph_count(), 256);
    assert_eq!(font.glyph_size(), (8, 0));
    let glyph = font.glyph(0).expect("index 0 is served");
    assert_eq!(glyph.len(), 0);
}

#[test]
fn psf2_well_formed_queries() {
    let buf = psf2_buffer(4, 6, 5, 6, |i, j| (16 * i + j) as u8);
    let font = PSFFont::parse(&buf).ok().expect("well-formed PSF2 buffer must parse");
    assert_eq!(font.glyph_count(), 4);
    assert_eq!(font.glyph_size(), (5, 6));
    for i in 0..4usize {
        let glyph = font.glyph(i as u32).expect("every index below the count is served");
        assert_eq!(glyph.len(), 6);
        assert_eq!(glyph, &buf[32 + i * 6..32 + i * 6 + 6]);
        for j in 0..6usize {
            assert_eq!(glyph[j], (16 * i + j) as u8);
        }
    }
    assert!(font.glyph(4).is_none());
    assert!(font.glyph(u32::MAX).is_none());
}

#[test]
fn psf2_exact_fit_boundary() {
    // The size check reaches header_size + char_size * (length - 1):
    // with 3 glyphs of 4 bytes from offset 32 that is byte 40.
    let full = psf2_buffer(3, 4, 8, 4, |i, j| (4 * i + j) as u8);
    assert_eq!(full.len(), 44);

    let exact = &full[..40];
    let font = PSFFont::parse(exact).ok().expect("the exact fit must parse");
    assert_eq!(font.glyph_count(), 3);
    assert_eq!(font.glyph(1).expect("a fully contained glyph is served"), &full[36..40]);

    expect_err(PSFFont::parse(&full[..39]), Error::OutOfBounds);
}

#[test]
fn psf2_zero_glyph_count_is_out_of_bounds() {
    let buf = psf2_buffer(0, 4, 8, 4, |_, _| 0);
    assert_eq!(buf.len(), 32);
    expect_err(PSFFont::parse(&buf), Error::OutOfBounds);
}

#[test]
fn unknown_signature_is_invalid_magic() {
    expect_err(PSFFont::parse(&vec![0u8; 32]), Error::InvalidMagic);
    expect_err(PSFFont::parse(&vec![0u8; 64]), Error::InvalidMagic);
    let mut almost_psf2 = psf2_buffer(1, 1, 1, 1, |_, _| 0);
    almost_psf2[3] = 0x87;
    expect_err(PSFFont::parse(&almost_psf2), Error::InvalidMagic);
}

#[test]
fn short_buffer_without_psf1_magic_is_out_of_bounds() {
    // Long enough for a PSF1 header, too short for a PSF2 header: the
    // dispatcher fails on size before it ever reads a PSF2 signature.
    expect_err(PSFFont::parse(&vec![0u8; 10]), Error::OutOfBounds);
    expect_err(PSFFont::parse(&[0x72, 0xb5, 0x4a, 0x86]), Error::OutOfBounds);
}

#[test]
fn psf1_signature_takes_priority() {
    // A buffer that starts with the PSF1 signature is decoded as PSF1
    // however long it is, and never tried against the PSF2 layout.
    let buf = psf1_buffer(0, 16, |_, _| 0xff);
    assert!(buf.len() >= 32);
    let font = PSFFont::parse(&buf).ok().expect("parses as PSF1");
    assert_eq!(font.glyph_count(), 256);
    assert_eq!(font.glyph_size(), (8, 16));
}

#[test]
fn parsing_twice_yields_identical_windows() {
    let buf = psf2_buffer(7, 5, 8, 5, |i, j| (31 * i + 7 * j) as u8);
    let first = PSFFont::parse(&buf).ok().expect("must parse");
    let second = PSFFont::parse(&buf).ok().expect("must parse");
    assert_eq!(first.glyph_count(), second.glyph_count());
    assert_eq!(first.glyph_size(), second.glyph_size());
    for i in 0..8u32 {
        assert_eq!(first.glyph(i), second.glyph(i));
    }
}

#[test]
fn psf1_decoder_rejects_other_signatures() {
    let psf2 = psf2_buffer(1, 1, 1, 1, |_, _| 0);
    match PSF1Font::parse(&psf2) {
        Ok(_) => panic!("a PSF2 signature must not parse as PSF1"),
        Err(e) => assert_eq!(e, Error::InvalidMagic),
    }
}

#[test]
fn psf2_decoder_rejects_other_signatures() {
    let psf1 = psf1_buffer(0, 1, |_, _| 0);
    match PSF2Font::parse(&psf1) {
        Ok(_) => panic!("a PSF1 signature must not parse as PSF2"),
        Err(e) => assert_eq!(e, Error::InvalidMagic),
    }
    match PSF2Font::parse(&[0x36, 0x04, 0x00, 0x00]) {
        Ok(_) => panic!("a 4-byte buffer must not parse as PSF2"),
        Err(e) => assert_eq!(e, Error::OutOfBounds),
    }
}

#[test]
fn little_endian_fields_are_decoded_exactly() {
    let data = [0x78, 0x56, 0x34, 0x12, 0xff, 0xff, 0xff, 0xff];
    assert_eq!(read_u32_le(&data, 0), 0x1234_5678);
    assert_eq!(read_u32_le(&data, 4), u32::MAX);
    assert_eq!(read_u32_le(&data, 1), 0xff12_3456);

    // The PSF2 header fields land where the layout declares them, with
    // values that need more than one byte.
    let buf = psf2_buffer(300, 5, 513, 0x0102_0304, |_, _| 0);
    let font = match PSFFont::parse(&buf) {
        Ok(f) => f,
        Err(e) => panic!("must parse: {:?}", e),
    };
    assert_eq!(font.glyph_count(), 300);
    assert_eq!(font.glyph_size(), (513, 0x0102_0304));
}
