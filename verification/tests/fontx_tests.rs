use fontx2::fontx::{InitializationError, RenderFailureReason, FONTX};

/// Builds a Shift-JIS FONTX2 blob: 8x8 glyphs, the given code-block
/// table, and one 8-byte glyph per covered code unit, glyph `g` filled
/// with the byte `g as u8`.
fn sjis_blob(blocks: &[(u16, u16)]) -> Vec<u8> {
    let mut v: Vec<u8> = vec![0x46, 0x4f, 0x4e, 0x54, 0x58, 0x32];
    v.extend_from_slice(&[0x54, 0x45, 0x53, 0x54, 0x46, 0x4f, 0x4e, 0x54]);
    v.push(8); // width
    v.push(8); // height
    v.push(1); // code flag: Shift-JIS
    v.push(blocks.len() as u8);
    let mut glyphs: usize = 0;
    for &(s, e) in blocks {
        v.extend_from_slice(&[s as u8, (s >> 8) as u8, e as u8, (e >> 8) as u8]);
        glyphs += (e - s) as usize + 1;
    }
    for g in 0..glyphs {
        v.extend_from_slice(&[g as u8; 8]);
    }
    v
}

/// Builds an ANK FONTX2 blob: 8x8 glyphs, one per byte value, glyph `g`
/// filled with the byte `g as u8`.
fn ank_blob() -> Vec<u8> {
    let mut v: Vec<u8> = vec![0x46, 0x4f, 0x4e, 0x54, 0x58, 0x32];
    v.extend_from_slice(&[0x54, 0x45, 0x53, 0x54, 0x46, 0x4f, 0x4e, 0x54]);
    v.push(8); // width
    v.push(8); // height
    v.push(0); // code flag: ANK
    for g in 0..256usize {
        v.extend_from_slice(&[g as u8; 8]);
    }
    v
}

#[test]
fn should_init() {
    let fontblob = sjis_blob(&[(0x8140, 0x8143), (0x82C0, 0x82D0)]);
    assert!(FONTX::new(&fontblob).is_ok());
}

#[test]
fn should_fail() {
    let mut fontblob = sjis_blob(&[(0x8140, 0x8143)]);
    fontblob[0] = 0x44; // corrupt the magic
    match FONTX::new(&fontblob) {
        Ok(_) => panic!("It should fail!"),
        Err(e) => assert_eq!(e, InitializationError::InvalidFormat),
    }
}

#[test]
fn offset_should_fail() {
    let fontblob = sjis_blob(&[(0x8140, 0x8143), (0x82C0, 0x82D0)]);
    let fontx = FONTX::new(&fontblob).unwrap();
    // A Hangul syllable has no Shift-JIS encoding.
    match fontx.get_sjis_offset('가') {
        Ok(_) => panic!("Invalid result"),
        Err(e) => assert_eq!(e, RenderFailureReason::UnsupportedCharacter),
    }
}

#[test]
fn offset_should_success() {
    let fontblob = sjis_blob(&[(0x8140, 0x8143), (0x82C0, 0x82D0)]);
    let fontx = FONTX::new(&fontblob).unwrap();
    let off = fontx.get_sjis_offset('の').unwrap();
    // 'の' is Shift-JIS 0x82CC: 4 glyphs of the first block, then
    // position 0xCC - 0xC0 in the second; header is 18 + 2 * 4 bytes.
    assert_eq!(off, 26 + (4 + 12) * 8);
    assert!(off >= 26 && off < fontblob.len());
}

#[test]
fn init_rejects_short_blob() {
    assert!(FONTX::new(&[0x46, 0x4f, 0x4e, 0x54, 0x58, 0x32]).is_err());
    assert!(FONTX::new(&[]).is_err());
}

#[test]
fn init_rejects_bad_code_flag() {
    let mut fontblob = ank_blob();
    fontblob[16] = 2;
    assert!(FONTX::new(&fontblob).is_err());
}

#[test]
fn init_rejects_zero_dimensions() {
    let mut fontblob = ank_blob();
    fontblob[14] = 0;
    assert!(FONTX::new(&fontblob).is_err());
    let mut fontblob2 = ank_blob();
    fontblob2[15] = 0;
    assert!(FONTX::new(&fontblob2).is_err());
}

#[test]
fn init_rejects_truncated_table() {
    let mut fontblob = sjis_blob(&[(0x8140, 0x8143)]);
    fontblob[17] = 200; // claims a table the blob cannot hold
    assert!(FONTX::new(&fontblob).is_err());
}

#[test]
fn ank_offset_is_linear_in_code() {
    let fontblob = ank_blob();
    let fontx = FONTX::new(&fontblob).unwrap();
    // 'A' is Shift-JIS 0x41, a single byte: offset 17 + 0x41 * 8.
    assert_eq!(fontx.get_sjis_offset('A').unwrap(), 17 + 0x41 * 8);
    assert_eq!(fontx.resolve_sjis_offset(0).unwrap(), 17);
    assert_eq!(fontx.resolve_sjis_offset(0xFF).unwrap(), 17 + 0xFF * 8);
}

#[test]
fn ank_rejects_double_byte_code() {
    let fontblob = ank_blob();
    let fontx = FONTX::new(&fontblob).unwrap();
    // 'の' encodes to 0x82CC, beyond single-byte addressing.
    assert_eq!(
        fontx.get_sjis_offset('の'),
        Err(RenderFailureReason::UnsupportedCharacter)
    );
    assert_eq!(
        fontx.resolve_sjis_offset(0x100),
        Err(RenderFailureReason::UnsupportedCharacter)
    );
}

#[test]
fn character_above_bmp_is_unsupported() {
    let fontblob = ank_blob();
    let fontx = FONTX::new(&fontblob).unwrap();
    assert_eq!(
        fontx.get_sjis_offset('😀'),
        Err(RenderFailureReason::UnsupportedCharacter)
    );
    let mut buf = [0u8; 8];
    assert_eq!(
        fontx.render('😀', &mut buf),
        Err(RenderFailureReason::UnsupportedCharacter)
    );
}

#[test]
fn sjis_offsets_step_uniformly_within_a_range() {
    let fontblob = sjis_blob(&[(0x8140, 0x8143), (0x82C0, 0x82D0)]);
    let fontx = FONTX::new(&fontblob).unwrap();
    let base = fontx.resolve_sjis_offset(0x82C0).unwrap();
    for step in 1..=16usize {
        let off = fontx.resolve_sjis_offset(0x82C0 + step as u16).unwrap();
        assert_eq!(off, base + step * 8);
    }
}

#[test]
fn uncovered_code_unit_fails() {
    let fontblob = sjis_blob(&[(0x8140, 0x8143), (0x82C0, 0x82D0)]);
    let fontx = FONTX::new(&fontblob).unwrap();
    assert_eq!(
        fontx.resolve_sjis_offset(0x8144),
        Err(RenderFailureReason::UnsupportedCharacter)
    );
    assert_eq!(
        fontx.resolve_sjis_offset(0x9999),
        Err(RenderFailureReason::UnsupportedCharacter)
    );
}

#[test]
fn inverted_table_range_matches_nothing() {
    // end < start: the entry covers no code unit and construction and
    // lookup both tolerate it.
    let fontblob = sjis_blob(&[(0x8143, 0x8143)]);
    let mut broken = fontblob.clone();
    broken[18] = 0x50; // start 0x8150, end stays 0x8143
    let fontx = FONTX::new(&broken).unwrap();
    assert_eq!(
        fontx.resolve_sjis_offset(0x8145),
        Err(RenderFailureReason::UnsupportedCharacter)
    );
}

#[test]
fn render_copies_the_glyph_bitmap() {
    let fontblob = sjis_blob(&[(0x8140, 0x8143), (0x82C0, 0x82D0)]);
    let fontx = FONTX::new(&fontblob).unwrap();
    let mut buf = [0xEEu8; 10];
    let (w, h) = fontx.render('の', &mut buf).unwrap();
    assert_eq!((w, h), (8, 8));
    // Glyph 16 of the region is filled with the byte 16.
    assert_eq!(&buf[..8], &[16u8; 8]);
    assert_eq!(&buf[8..], &[0xEEu8; 2]); // the tail is untouched
}

#[test]
fn render_twice_is_byte_identical() {
    let fontblob = sjis_blob(&[(0x8140, 0x8143), (0x82C0, 0x82D0)]);
    let fontx = FONTX::new(&fontblob).unwrap();
    let mut buf1 = [0u8; 8];
    let mut buf2 = [0u8; 8];
    let r1 = fontx.render('の', &mut buf1).unwrap();
    let r2 = fontx.render('の', &mut buf2).unwrap();
    assert_eq!(r1, r2);
    assert_eq!(buf1, buf2);
}

#[test]
fn full_table_accumulates_across_all_blocks() {
    // The largest table the format can declare: 255 one-unit ranges.
    let blocks: Vec<(u16, u16)> = (0..255u16).map(|i| (0x8200 + i, 0x8200 + i)).collect();
    let fontblob = sjis_blob(&blocks);
    let fontx = FONTX::new(&fontblob).unwrap();
    let headersz = 18 + 4 * 255;
    assert_eq!(fontx.resolve_sjis_offset(0x8200).unwrap(), headersz);
    assert_eq!(
        fontx.resolve_sjis_offset(0x8200 + 254).unwrap(),
        headersz + 254 * 8
    );
    assert_eq!(
        fontx.resolve_sjis_offset(0x8300),
        Err(RenderFailureReason::UnsupportedCharacter)
    );
}

#[test]
fn glyph_size_rounds_width_up_to_whole_bytes() {
    // width 17 packs to 3 bytes per row; 5 rows give 15 bytes per glyph.
    let mut fontblob = sjis_blob(&[(0x8140, 0x8142)]);
    fontblob[14] = 17;
    fontblob[15] = 5;
    fontblob.truncate(22);
    fontblob.extend_from_slice(&[0xABu8; 3 * 15]);
    let fontx = FONTX::new(&fontblob).unwrap();
    let first = fontx.resolve_sjis_offset(0x8140).unwrap();
    let second = fontx.resolve_sjis_offset(0x8141).unwrap();
    assert_eq!(first, 22);
    assert_eq!(second - first, 15);
    let mut buf = [0u8; 15];
    assert_eq!(fontx.render('　', &mut buf).unwrap(), (17, 5));
}

#[test]
fn render_rejects_undersized_buffer() {
    let fontblob = ank_blob();
    let fontx = FONTX::new(&fontblob).unwrap();
    let mut buf = [0xEEu8; 7];
    assert_eq!(
        fontx.render('A', &mut buf),
        Err(RenderFailureReason::UnknownError)
    );
    assert_eq!(buf, [0xEEu8; 7]); // failure leaves the buffer alone
}

#[test]
fn render_rejects_truncated_font_data() {
    let mut fontblob = sjis_blob(&[(0x8140, 0x8143)]);
    fontblob.truncate(22 + 8); // keep the header and one glyph only
    let fontx = FONTX::new(&fontblob).unwrap();
    let mut buf = [0u8; 8];
    assert!(fontx.render('　', &mut buf).is_ok()); // 0x8140: the first glyph
    assert_eq!(
        fontx.render('あ', &mut buf), // 0x829F is covered by no range
        Err(RenderFailureReason::UnsupportedCharacter)
    );
    assert_eq!(
        fontx.render('、', &mut buf), // 0x8141: resolved, but past the data
        Err(RenderFailureReason::UnknownError)
    );
}
