//! End-to-end tests of the face parser on synthetic fonts.

use ttf_meta::tables::head::IndexToLocationFormat;
use ttf_meta::{ParseError, TTFParser};

fn be16(v: i32) -> [u8; 2] {
    ((v as i64 & 0xFFFF) as u16).to_be_bytes()
}

fn be32(v: u32) -> [u8; 4] {
    v.to_be_bytes()
}

/// Builds a single-face font: an offset table followed by the given tables,
/// packed back to back.
fn build_font(tables: &[(&[u8; 4], Vec<u8>)]) -> Vec<u8> {
    let n = tables.len();
    let mut out = Vec::new();
    out.extend_from_slice(&be32(0x00010000));
    out.extend_from_slice(&be16(n as i32));
    out.extend_from_slice(&[0u8; 6]);
    let mut offset = 12 + 16 * n;
    for (tag, body) in tables {
        out.extend_from_slice(*tag);
        out.extend_from_slice(&be32(0));
        out.extend_from_slice(&be32(offset as u32));
        out.extend_from_slice(&be32(body.len() as u32));
        offset += body.len();
    }
    for (_, body) in tables {
        out.extend_from_slice(body);
    }
    out
}

fn head_table(upem: i32, bbox: [i32; 4], ilf: i32) -> Vec<u8> {
    let mut t = vec![0u8; 54];
    t[18..20].copy_from_slice(&be16(upem));
    t[36..38].copy_from_slice(&be16(bbox[0]));
    t[38..40].copy_from_slice(&be16(bbox[1]));
    t[40..42].copy_from_slice(&be16(bbox[2]));
    t[42..44].copy_from_slice(&be16(bbox[3]));
    t[50..52].copy_from_slice(&be16(ilf));
    t
}

fn hhea_table(ascender: i32, descender: i32, line_gap: i32, number_of_metrics: i32) -> Vec<u8> {
    let mut t = vec![0u8; 36];
    t[4..6].copy_from_slice(&be16(ascender));
    t[6..8].copy_from_slice(&be16(descender));
    t[8..10].copy_from_slice(&be16(line_gap));
    t[34..36].copy_from_slice(&be16(number_of_metrics));
    t
}

fn maxp_table(number_of_glyphs: i32) -> Vec<u8> {
    let mut t = vec![0u8; 6];
    t[0..4].copy_from_slice(&be32(0x00010000));
    t[4..6].copy_from_slice(&be16(number_of_glyphs));
    t
}

struct Os2Spec {
    version: i32,
    weight: i32,
    width: i32,
    fs_type: i32,
    fs_selection: i32,
    typo_ascender: i32,
    typo_descender: i32,
    typo_line_gap: i32,
}

impl Default for Os2Spec {
    fn default() -> Os2Spec {
        Os2Spec {
            version: 0,
            weight: 400,
            width: 5,
            fs_type: 0,
            fs_selection: 0,
            typo_ascender: 0,
            typo_descender: 0,
            typo_line_gap: 0,
        }
    }
}

fn os2_table(spec: &Os2Spec) -> Vec<u8> {
    let len = match spec.version {
        0 => 78,
        1 => 86,
        2..=4 => 96,
        _ => 100,
    };
    let mut t = vec![0u8; len];
    t[0..2].copy_from_slice(&be16(spec.version));
    t[4..6].copy_from_slice(&be16(spec.weight));
    t[6..8].copy_from_slice(&be16(spec.width));
    t[8..10].copy_from_slice(&be16(spec.fs_type));
    t[62..64].copy_from_slice(&be16(spec.fs_selection));
    t[68..70].copy_from_slice(&be16(spec.typo_ascender));
    t[70..72].copy_from_slice(&be16(spec.typo_descender));
    t[72..74].copy_from_slice(&be16(spec.typo_line_gap));
    t
}

/// Builds a name table from raw records (platform, encoding, language, name
/// id, string offset, string bytes length) and a storage area.
fn name_table(records: &[(i32, i32, i32, i32, i32, i32)], storage: &[u8]) -> Vec<u8> {
    let n = records.len();
    let mut t = Vec::new();
    t.extend_from_slice(&be16(0));
    t.extend_from_slice(&be16(n as i32));
    t.extend_from_slice(&be16((6 + 12 * n) as i32));
    for (platform, encoding, language, name_id, offset, length) in records {
        t.extend_from_slice(&be16(*platform));
        t.extend_from_slice(&be16(*encoding));
        t.extend_from_slice(&be16(*language));
        t.extend_from_slice(&be16(*name_id));
        t.extend_from_slice(&be16(*length));
        t.extend_from_slice(&be16(*offset));
    }
    t.extend_from_slice(storage);
    t
}

fn vhea_table(ascender: i32, descender: i32, line_gap: i32) -> Vec<u8> {
    let mut t = vec![0u8; 36];
    t[4..6].copy_from_slice(&be16(ascender));
    t[6..8].copy_from_slice(&be16(descender));
    t[8..10].copy_from_slice(&be16(line_gap));
    t
}

fn post_table(is_fixed_pitch: u32) -> Vec<u8> {
    let mut t = vec![0u8; 32];
    t[12..16].copy_from_slice(&be32(is_fixed_pitch));
    t
}

fn minimal_font() -> Vec<u8> {
    build_font(&[
        (b"head", head_table(1000, [-100, -200, 1000, 900], 0)),
        (b"hhea", hhea_table(800, -200, 0, 1)),
        (b"maxp", maxp_table(1)),
    ])
}

#[test]
fn minimal_font_parses() {
    let data = minimal_font();
    let p = TTFParser::new(&data, None).unwrap();
    assert!(p.tables.os2.is_none());
    assert!(p.tables.name.is_none());
    assert_eq!(p.ascender, 800);
    assert_eq!(p.descender, -200);
    assert_eq!(p.height, 1000);
    assert_eq!(p.line_gap, 0);
    assert_eq!(p.units_per_em, 1000);
    assert_eq!(p.number_of_glyphs, 1);
    assert!(p.typographic_ascender.is_none());
    assert!(p.typographic_descender.is_none());
    assert!(p.typographic_line_gap.is_none());
    assert!(p.vertical_ascender.is_none());
    assert!(p.vertical_descender.is_none());
    assert!(p.vertical_height.is_none());
    assert!(p.vertical_line_gap.is_none());
    assert!(p.x_height.is_none());
    assert!(p.capital_height.is_none());
    assert!(p.permissions.is_none());
    assert!(p.superscript_metrics.is_none());
    assert!(!p.is_bold);
    assert!(!p.is_italic);
    assert!(!p.is_oblique);
    assert!(!p.is_regular);
    assert!(!p.is_monospaced);
    assert!(!p.is_variable);
    assert!(!p.is_subsetting_allowed);
    assert!(!p.is_bitmap_embedding_allowed);
    let bbox = p.global_bounding_box();
    assert_eq!(bbox.x_min, -100);
    assert_eq!(bbox.y_min, -200);
    assert_eq!(bbox.x_max, 1000);
    assert_eq!(bbox.y_max, 900);
    assert!(matches!(
        p.tables().head.index_to_location_format,
        IndexToLocationFormat::Short
    ));
}

#[test]
fn typographic_metrics_take_precedence() {
    let data = build_font(&[
        (b"head", head_table(1000, [-100, -200, 1000, 900], 0)),
        (b"hhea", hhea_table(800, -200, 0, 1)),
        (b"maxp", maxp_table(1)),
        (
            b"OS/2",
            os2_table(&Os2Spec {
                fs_selection: 0x0080,
                typo_ascender: 820,
                typo_descender: -200,
                typo_line_gap: 7,
                ..Os2Spec::default()
            }),
        ),
    ]);
    let p = TTFParser::new(&data, None).unwrap();
    assert_eq!(p.ascender, 820);
    assert_eq!(p.descender, -200);
    assert_eq!(p.height, 1020);
    assert_eq!(p.line_gap, 7);
    assert_eq!(p.typographic_ascender, Some(820));
}

#[test]
fn os2_without_typographic_flag_keeps_hhea_metrics() {
    let data = build_font(&[
        (b"head", head_table(1000, [0, 0, 0, 0], 0)),
        (b"hhea", hhea_table(800, -200, 90, 1)),
        (b"maxp", maxp_table(1)),
        (
            b"OS/2",
            os2_table(&Os2Spec {
                typo_ascender: 820,
                ..Os2Spec::default()
            }),
        ),
    ]);
    let p = TTFParser::new(&data, None).unwrap();
    assert_eq!(p.ascender, 800);
    assert_eq!(p.line_gap, 90);
    assert_eq!(p.typographic_ascender, Some(820));
}

#[test]
fn collection_index_out_of_range() {
    let face = minimal_font();
    let mut data = Vec::new();
    data.extend_from_slice(b"ttcf");
    data.extend_from_slice(&be32(0x00010000));
    data.extend_from_slice(&be32(2));
    let base = 12 + 8;
    data.extend_from_slice(&be32(base as u32));
    data.extend_from_slice(&be32(base as u32));
    // Table offsets in a directory are absolute file offsets, so the face's
    // directory records must be shifted by the face's base.
    let mut shifted = Vec::new();
    shifted.extend_from_slice(&face[..12]);
    let n = 3;
    for i in 0..n {
        let e = 12 + 16 * i;
        shifted.extend_from_slice(&face[e..e + 8]);
        let off = u32::from_be_bytes(face[e + 8..e + 12].try_into().unwrap());
        shifted.extend_from_slice(&be32(off + base as u32));
        shifted.extend_from_slice(&face[e + 12..e + 16]);
    }
    shifted.extend_from_slice(&face[12 + 16 * n..]);
    data.extend_from_slice(&shifted);
    assert_eq!(TTFParser::new(&data, Some(2)), Err(ParseError::InvalidFaceIndex));
    assert_eq!(TTFParser::new(&data, Some(3)), Err(ParseError::InvalidFaceIndex));
    let p = TTFParser::new(&data, Some(1)).unwrap();
    assert_eq!(p.units_per_em, 1000);
    let p0 = TTFParser::new(&data, Some(0)).unwrap();
    assert_eq!(p0.number_of_glyphs, 1);
}

#[test]
fn table_range_ending_at_buffer_end_is_valid() {
    // In a packed font the last table ends exactly at the buffer's end.
    let data = minimal_font();
    assert!(TTFParser::new(&data, None).is_ok());
}

#[test]
fn table_range_one_byte_past_buffer_end_is_out_of_bounds() {
    let mut data = minimal_font();
    // The maxp entry is the third directory record; grow its length by one.
    let e = 12 + 16 * 2;
    let len = u32::from_be_bytes(data[e + 12..e + 16].try_into().unwrap());
    data[e + 12..e + 16].copy_from_slice(&be32(len + 1));
    assert_eq!(TTFParser::new(&data, None), Err(ParseError::OutOfBounds));
}

#[test]
fn zeroing_os2_length_only_loses_os2_fields() {
    let with_os2 = build_font(&[
        (b"head", head_table(1000, [-100, -200, 1000, 900], 0)),
        (b"hhea", hhea_table(800, -200, 0, 1)),
        (b"maxp", maxp_table(1)),
        (
            b"OS/2",
            os2_table(&Os2Spec {
                fs_selection: 0x0080 | 0x0020,
                typo_ascender: 820,
                typo_descender: -180,
                ..Os2Spec::default()
            }),
        ),
    ]);
    let mut without_os2 = with_os2.clone();
    // The OS/2 entry is the fourth directory record; zero its length.
    let e = 12 + 16 * 3;
    without_os2[e + 12..e + 16].copy_from_slice(&be32(0));
    let p1 = TTFParser::new(&with_os2, None).unwrap();
    let p2 = TTFParser::new(&without_os2, None).unwrap();
    assert!(p1.tables.os2.is_some());
    assert!(p2.tables.os2.is_none());
    assert_eq!(p1.tables.head, p2.tables.head);
    assert_eq!(p1.tables.hhea, p2.tables.hhea);
    assert_eq!(p1.tables.maxp, p2.tables.maxp);
    assert_eq!(p1.units_per_em, p2.units_per_em);
    assert_eq!(p1.number_of_glyphs, p2.number_of_glyphs);
    // The face with OS/2 follows the typographic metrics, the other falls
    // back to hhea.
    assert_eq!(p1.ascender, 820);
    assert_eq!(p2.ascender, 800);
    assert_eq!(p2.descender, -200);
    assert!(p2.typographic_ascender.is_none());
    assert!(!p2.is_bold);
    assert!(p1.is_bold);
}

#[test]
fn parsing_twice_yields_identical_snapshots() {
    let data = build_font(&[
        (b"head", head_table(2048, [-10, -20, 30, 40], 1)),
        (b"hhea", hhea_table(1900, -500, 10, 3)),
        (b"maxp", maxp_table(7)),
        (b"OS/2", os2_table(&Os2Spec::default())),
        (
            b"name",
            name_table(&[(0, 3, 0, 1, 0, 4)], &[0x00, 0x41, 0x00, 0x42]),
        ),
    ]);
    let p1 = TTFParser::new(&data, None).unwrap();
    let p2 = TTFParser::new(&data, None).unwrap();
    assert_eq!(p1, p2);
    let p3 = TTFParser::new(&data, Some(0)).unwrap();
    assert_eq!(p1, p3);
}

#[test]
fn units_per_em_out_of_range_is_rejected() {
    for upem in [0, 10, 15, 16385, 30000] {
        let data = build_font(&[
            (b"head", head_table(upem, [0, 0, 0, 0], 0)),
            (b"hhea", hhea_table(800, -200, 0, 1)),
            (b"maxp", maxp_table(1)),
        ]);
        assert_eq!(TTFParser::new(&data, None), Err(ParseError::InvalidValue));
    }
    for upem in [16, 1000, 16384] {
        let data = build_font(&[
            (b"head", head_table(upem, [0, 0, 0, 0], 0)),
            (b"hhea", hhea_table(800, -200, 0, 1)),
            (b"maxp", maxp_table(1)),
        ]);
        let p = TTFParser::new(&data, None).unwrap();
        assert_eq!(p.units_per_em, upem as u16);
    }
}

#[test]
fn zero_glyph_count_is_rejected() {
    let data = build_font(&[
        (b"head", head_table(1000, [0, 0, 0, 0], 0)),
        (b"hhea", hhea_table(800, -200, 0, 1)),
        (b"maxp", maxp_table(0)),
    ]);
    assert_eq!(TTFParser::new(&data, None), Err(ParseError::InvalidValue));
}

#[test]
fn unknown_magic_is_rejected() {
    let data = build_font(&[
        (b"head", head_table(1000, [0, 0, 0, 0], 0)),
        (b"hhea", hhea_table(800, -200, 0, 1)),
        (b"maxp", maxp_table(1)),
    ]);
    let mut bad = data.clone();
    bad[0] = 0x12;
    assert_eq!(TTFParser::new(&bad, None), Err(ParseError::UnknownMagic));
}

#[test]
fn tiny_buffer_is_out_of_bounds() {
    assert_eq!(TTFParser::new(&[0x00, 0x01], None), Err(ParseError::OutOfBounds));
    assert_eq!(TTFParser::new(&[], None), Err(ParseError::OutOfBounds));
}

#[test]
fn oversized_table_count_is_malformed_directory() {
    let mut data = minimal_font();
    data[4..6].copy_from_slice(&be16(0x7FFF));
    assert_eq!(TTFParser::new(&data, None), Err(ParseError::MalformedDirectory));
}

#[test]
fn missing_required_table_is_rejected() {
    let data = build_font(&[
        (b"head", head_table(1000, [0, 0, 0, 0], 0)),
        (b"maxp", maxp_table(1)),
    ]);
    assert_eq!(TTFParser::new(&data, None), Err(ParseError::RequiredTableMissing));
}

#[test]
fn undersized_required_table_is_too_short() {
    let data = build_font(&[
        (b"head", head_table(1000, [0, 0, 0, 0], 0)[..40].to_vec()),
        (b"hhea", hhea_table(800, -200, 0, 1)),
        (b"maxp", maxp_table(1)),
    ]);
    assert_eq!(TTFParser::new(&data, None), Err(ParseError::TableTooShort));
}

#[test]
fn bad_index_to_location_format_is_rejected() {
    let data = build_font(&[
        (b"head", head_table(1000, [0, 0, 0, 0], 2)),
        (b"hhea", hhea_table(800, -200, 0, 1)),
        (b"maxp", maxp_table(1)),
    ]);
    assert_eq!(TTFParser::new(&data, None), Err(ParseError::InvalidValue));
}

#[test]
fn long_index_to_location_format() {
    let data = build_font(&[
        (b"head", head_table(1000, [0, 0, 0, 0], 1)),
        (b"hhea", hhea_table(800, -200, 0, 1)),
        (b"maxp", maxp_table(1)),
    ]);
    let p = TTFParser::new(&data, None).unwrap();
    assert!(matches!(
        p.tables.head.index_to_location_format,
        IndexToLocationFormat::Long
    ));
}

#[test]
fn vertical_metrics_come_from_vhea_only() {
    let data = build_font(&[
        (b"head", head_table(1000, [0, 0, 0, 0], 0)),
        (b"hhea", hhea_table(800, -200, 0, 1)),
        (b"maxp", maxp_table(1)),
        (b"vhea", vhea_table(500, -500, 12)),
    ]);
    let p = TTFParser::new(&data, None).unwrap();
    assert_eq!(p.vertical_ascender, Some(500));
    assert_eq!(p.vertical_descender, Some(-500));
    assert_eq!(p.vertical_height, Some(1000));
    assert_eq!(p.vertical_line_gap, Some(12));
}

#[test]
fn monospace_flag_comes_from_post() {
    let data = build_font(&[
        (b"head", head_table(1000, [0, 0, 0, 0], 0)),
        (b"hhea", hhea_table(800, -200, 0, 1)),
        (b"maxp", maxp_table(1)),
        (b"post", post_table(1)),
    ]);
    let p = TTFParser::new(&data, None).unwrap();
    assert!(p.is_monospaced);
    let data2 = build_font(&[
        (b"head", head_table(1000, [0, 0, 0, 0], 0)),
        (b"hhea", hhea_table(800, -200, 0, 1)),
        (b"maxp", maxp_table(1)),
        (b"post", post_table(0)),
    ]);
    assert!(!TTFParser::new(&data2, None).unwrap().is_monospaced);
}

#[test]
fn variable_flag_is_fvar_presence() {
    let data = build_font(&[
        (b"head", head_table(1000, [0, 0, 0, 0], 0)),
        (b"hhea", hhea_table(800, -200, 0, 1)),
        (b"maxp", maxp_table(1)),
        (b"fvar", vec![0u8; 4]),
    ]);
    assert!(TTFParser::new(&data, None).unwrap().is_variable);
}

#[test]
fn os2_entry_past_buffer_end_is_treated_as_absent() {
    // The OS/2 range passing the buffer end by one byte must not fail the
    // face: the optional table degrades to absent and the metrics fall back
    // to hhea.
    let mut data = build_font(&[
        (b"head", head_table(1000, [0, 0, 0, 0], 0)),
        (b"hhea", hhea_table(800, -200, 0, 1)),
        (b"maxp", maxp_table(1)),
        (
            b"OS/2",
            os2_table(&Os2Spec {
                fs_selection: 0x0080,
                typo_ascender: 820,
                ..Os2Spec::default()
            }),
        ),
    ]);
    let e = 12 + 16 * 3;
    let len = u32::from_be_bytes(data[e + 12..e + 16].try_into().unwrap());
    data[e + 12..e + 16].copy_from_slice(&be32(len + 1));
    let p = TTFParser::new(&data, None).unwrap();
    assert!(p.tables.os2.is_none());
    assert_eq!(p.ascender, 800);
    assert!(p.typographic_ascender.is_none());
}

#[test]
fn name_entry_past_buffer_end_is_treated_as_absent() {
    let mut data = build_font(&[
        (b"head", head_table(1000, [0, 0, 0, 0], 0)),
        (b"hhea", hhea_table(800, -200, 0, 1)),
        (b"maxp", maxp_table(1)),
        (
            b"name",
            name_table(&[(0, 3, 0, 1, 0, 4)], &[0x00, 0x41, 0x00, 0x42]),
        ),
    ]);
    let e = 12 + 16 * 3;
    let off = u32::from_be_bytes(data[e + 8..e + 12].try_into().unwrap());
    data[e + 8..e + 12].copy_from_slice(&be32(off + 10_000));
    let p = TTFParser::new(&data, None).unwrap();
    assert!(p.tables.name.is_none());
    assert_eq!(p.number_of_glyphs, 1);
}

#[test]
fn unconsulted_entry_with_bad_range_is_harmless() {
    // An extra directory record of some unconsulted table may point past the
    // buffer; nothing reads it, so the face still parses.
    let data = build_font(&[
        (b"head", head_table(1000, [0, 0, 0, 0], 0)),
        (b"hhea", hhea_table(800, -200, 0, 1)),
        (b"maxp", maxp_table(1)),
        (b"glyf", Vec::new()),
    ]);
    let mut bad = data.clone();
    let e = 12 + 16 * 3;
    bad[e + 12..e + 16].copy_from_slice(&be32(50_000));
    let p = TTFParser::new(&bad, None).unwrap();
    assert_eq!(p.units_per_em, 1000);
}

#[test]
fn truncated_collection_header_is_out_of_bounds() {
    let mut data = Vec::new();
    data.extend_from_slice(b"ttcf");
    data.extend_from_slice(&be32(0x00010000));
    assert_eq!(TTFParser::new(&data, None), Err(ParseError::OutOfBounds));
}

#[test]
fn collection_face_with_bad_inner_signature_is_unknown_magic() {
    let mut data = Vec::new();
    data.extend_from_slice(b"ttcf");
    data.extend_from_slice(&be32(0x00010000));
    data.extend_from_slice(&be32(1));
    data.extend_from_slice(&be32(16));
    data.extend_from_slice(&be32(0));
    assert_eq!(TTFParser::new(&data, None), Err(ParseError::UnknownMagic));
}

#[test]
fn collection_offset_past_buffer_is_out_of_bounds() {
    let mut data = Vec::new();
    data.extend_from_slice(b"ttcf");
    data.extend_from_slice(&be32(0x00010000));
    data.extend_from_slice(&be32(1));
    data.extend_from_slice(&be32(10_000));
    assert_eq!(TTFParser::new(&data, None), Err(ParseError::OutOfBounds));
}

#[test]
fn height_saturates_instead_of_wrapping() {
    let data = build_font(&[
        (b"head", head_table(1000, [0, 0, 0, 0], 0)),
        (b"hhea", hhea_table(32767, -32768, 0, 1)),
        (b"maxp", maxp_table(1)),
    ]);
    let p = TTFParser::new(&data, None).unwrap();
    assert_eq!(p.height, 32767);
}
