//! Tests of the OS/2 and naming table decoders through the public parser.

use ttf_meta::tables::name::{NameId, PlatformId};
use ttf_meta::tables::os2::{Permissions, Style, Width};
use ttf_meta::tables::Weight;
use ttf_meta::TTFParser;

fn be16(v: i32) -> [u8; 2] {
    ((v as i64 & 0xFFFF) as u16).to_be_bytes()
}

fn be32(v: u32) -> [u8; 4] {
    v.to_be_bytes()
}

fn build_font(tables: &[(&[u8; 4], Vec<u8>)]) -> Vec<u8> {
    let n = tables.len();
    let mut out = Vec::new();
    out.extend_from_slice(&be32(0x00010000));
    out.extend_from_slice(&be16(n as i32));
    out.extend_from_slice(&[0u8; 6]);
    let mut offset = 12 + 16 * n;
    for (tag, body) in tables {
        out.extend_from_slice(*tag);
        out.extend_from_slice(&be32(0));
        out.extend_from_slice(&be32(offset as u32));
        out.extend_from_slice(&be32(body.len() as u32));
        offset += body.len();
    }
    for (_, body) in tables {
        out.extend_from_slice(body);
    }
    out
}

fn head_table(upem: i32) -> Vec<u8> {
    let mut t = vec![0u8; 54];
    t[18..20].copy_from_slice(&be16(upem));
    t
}

fn hhea_table() -> Vec<u8> {
    let mut t = vec![0u8; 36];
    t[4..6].copy_from_slice(&be16(800));
    t[6..8].copy_from_slice(&be16(-200));
    t
}

fn maxp_table() -> Vec<u8> {
    let mut t = vec![0u8; 6];
    t[0..4].copy_from_slice(&be32(0x00010000));
    t[4..6].copy_from_slice(&be16(2));
    t
}

fn os2_of_len(len: usize, version: i32) -> Vec<u8> {
    let mut t = vec![0u8; len];
    t[0..2].copy_from_slice(&be16(version));
    t
}

fn font_with_os2(os2: Vec<u8>) -> Vec<u8> {
    build_font(&[
        (b"head", head_table(1000)),
        (b"hhea", hhea_table()),
        (b"maxp", maxp_table()),
        (b"OS/2", os2),
    ])
}

fn font_with_name(name: Vec<u8>) -> Vec<u8> {
    build_font(&[
        (b"head", head_table(1000)),
        (b"hhea", hhea_table()),
        (b"maxp", maxp_table()),
        (b"name", name),
    ])
}

fn name_table(records: &[(i32, i32, i32, i32, i32, i32)], storage: &[u8]) -> Vec<u8> {
    let n = records.len();
    let mut t = Vec::new();
    t.extend_from_slice(&be16(0));
    t.extend_from_slice(&be16(n as i32));
    t.extend_from_slice(&be16((6 + 12 * n) as i32));
    for (platform, encoding, language, name_id, offset, length) in records {
        t.extend_from_slice(&be16(*platform));
        t.extend_from_slice(&be16(*encoding));
        t.extend_from_slice(&be16(*language));
        t.extend_from_slice(&be16(*name_id));
        t.extend_from_slice(&be16(*length));
        t.extend_from_slice(&be16(*offset));
    }
    t.extend_from_slice(storage);
    t
}

#[test]
fn weight_and_width_buckets() {
    let cases: [(i32, Weight); 10] = [
        (100, Weight::Thin),
        (200, Weight::ExtraLight),
        (300, Weight::Light),
        (400, Weight::Normal),
        (500, Weight::Medium),
        (600, Weight::SemiBold),
        (700, Weight::Bold),
        (800, Weight::ExtraBold),
        (900, Weight::Black),
        (650, Weight::Other),
    ];
    for (raw, expected) in cases {
        let mut os2 = os2_of_len(78, 0);
        os2[4..6].copy_from_slice(&be16(raw));
        os2[6..8].copy_from_slice(&be16(1));
        let p = TTFParser::new(&font_with_os2(os2), None).unwrap();
        let t = p.tables.os2.unwrap();
        assert_eq!(t.weight, expected);
        assert_eq!(t.width, Width::UltraCondensed);
    }
    let mut os2 = os2_of_len(78, 0);
    os2[6..8].copy_from_slice(&be16(9));
    let t = TTFParser::new(&font_with_os2(os2), None).unwrap().tables.os2.unwrap();
    assert_eq!(t.width, Width::UltraExpanded);
    let mut os2 = os2_of_len(78, 0);
    os2[6..8].copy_from_slice(&be16(11));
    let t = TTFParser::new(&font_with_os2(os2), None).unwrap().tables.os2.unwrap();
    assert_eq!(t.width, Width::Normal);
}

#[test]
fn permission_bits() {
    let cases: [(i32, Permissions); 5] = [
        (0x0000, Permissions::Installable),
        (0x0002, Permissions::Restricted),
        (0x0004, Permissions::PreviewAndPrint),
        (0x0008, Permissions::Editable),
        (0x0006, Permissions::Malformed),
    ];
    for (fs_type, expected) in cases {
        let mut os2 = os2_of_len(78, 0);
        os2[8..10].copy_from_slice(&be16(fs_type));
        let p = TTFParser::new(&font_with_os2(os2), None).unwrap();
        assert_eq!(p.permissions, Some(expected));
        assert!(p.is_subsetting_allowed);
        assert!(p.is_bitmap_embedding_allowed);
    }
    let mut os2 = os2_of_len(78, 0);
    os2[8..10].copy_from_slice(&be16(0x0300));
    let p = TTFParser::new(&font_with_os2(os2), None).unwrap();
    assert!(!p.is_subsetting_allowed);
    assert!(!p.is_bitmap_embedding_allowed);
}

#[test]
fn style_and_selection_flags() {
    let mut os2 = os2_of_len(78, 0);
    os2[62..64].copy_from_slice(&be16(0x0001 | 0x0020 | 0x0040));
    let p = TTFParser::new(&font_with_os2(os2), None).unwrap();
    assert!(p.is_italic);
    assert!(p.is_bold);
    assert!(p.is_regular);
    assert!(!p.is_oblique);
    assert_eq!(p.tables.os2.unwrap().style, Style::Italic);
}

#[test]
fn oblique_needs_version_four() {
    let mut os2 = os2_of_len(78, 0);
    os2[62..64].copy_from_slice(&be16(0x0200 | 0x0001));
    let p = TTFParser::new(&font_with_os2(os2), None).unwrap();
    assert!(!p.is_oblique);
    assert!(p.is_italic);
    let mut os2 = os2_of_len(96, 4);
    os2[62..64].copy_from_slice(&be16(0x0200 | 0x0001));
    let p = TTFParser::new(&font_with_os2(os2), None).unwrap();
    assert!(p.is_oblique);
    assert!(!p.is_italic);
    assert_eq!(p.tables.os2.unwrap().style, Style::Oblique);
}

#[test]
fn script_and_strikeout_metrics() {
    let mut os2 = os2_of_len(78, 0);
    for (i, v) in [(10, 1), (12, 2), (14, 3), (16, 4)] {
        os2[i..i + 2].copy_from_slice(&be16(v));
    }
    for (i, v) in [(18, 5), (20, 6), (22, -7), (24, 8)] {
        os2[i..i + 2].copy_from_slice(&be16(v));
    }
    os2[26..28].copy_from_slice(&be16(50));
    os2[28..30].copy_from_slice(&be16(258));
    let p = TTFParser::new(&font_with_os2(os2), None).unwrap();
    let t = p.tables.os2.unwrap();
    assert_eq!(t.subscript_metrics.x_size, 1);
    assert_eq!(t.subscript_metrics.y_size, 2);
    assert_eq!(t.subscript_metrics.x_offset, 3);
    assert_eq!(t.subscript_metrics.y_offset, 4);
    assert_eq!(t.superscript_metrics.x_size, 5);
    assert_eq!(t.superscript_metrics.x_offset, -7);
    assert_eq!(p.superscript_metrics.unwrap().y_offset, 8);
    assert_eq!(t.strikeout_metrics.thickness, 50);
    assert_eq!(t.strikeout_metrics.position, 258);
}

#[test]
fn x_height_needs_version_two() {
    let os2 = os2_of_len(78, 0);
    let p = TTFParser::new(&font_with_os2(os2), None).unwrap();
    assert!(p.x_height.is_none());
    assert!(p.capital_height.is_none());
    let mut os2 = os2_of_len(96, 2);
    os2[86..88].copy_from_slice(&be16(480));
    os2[88..90].copy_from_slice(&be16(700));
    let p = TTFParser::new(&font_with_os2(os2), None).unwrap();
    assert_eq!(p.x_height, Some(480));
    assert_eq!(p.capital_height, Some(700));
}

#[test]
fn os2_shorter_than_its_version_is_absent() {
    // Declares version 2 (which needs 96 bytes) but only has version 0's 78.
    let os2 = os2_of_len(78, 2);
    let p = TTFParser::new(&font_with_os2(os2), None).unwrap();
    assert!(p.tables.os2.is_none());
    // An unknown version is also treated as absent.
    let os2 = os2_of_len(100, 6);
    let p = TTFParser::new(&font_with_os2(os2), None).unwrap();
    assert!(p.tables.os2.is_none());
    // Shorter than version 0's layout as well.
    let os2 = os2_of_len(40, 0);
    let p = TTFParser::new(&font_with_os2(os2), None).unwrap();
    assert!(p.tables.os2.is_none());
}

#[test]
fn windows_metrics_are_decoded() {
    let mut os2 = os2_of_len(78, 0);
    os2[74..76].copy_from_slice(&be16(1010));
    os2[76..78].copy_from_slice(&be16(250));
    let t = TTFParser::new(&font_with_os2(os2), None).unwrap().tables.os2.unwrap();
    assert_eq!(t.windows_ascender, 1010);
    assert_eq!(t.windows_descender, 250);
}

#[test]
fn unicode_names_decode_as_utf16() {
    let name = name_table(&[(0, 3, 0, 1, 0, 4)], &[0x00, 0x41, 0x00, 0x42]);
    let p = TTFParser::new(&font_with_name(name), None).unwrap();
    let t = p.tables.name.as_ref().unwrap();
    assert_eq!(t.names.len(), 1);
    assert_eq!(t.names[0].name, "AB");
    assert_eq!(t.names[0].platform_id, PlatformId::Unicode);
    assert_eq!(t.names[0].name_id, NameId::Family);
    assert_eq!(t.names[0].language_id, "0");
}

#[test]
fn windows_names_decode_as_utf16_with_language() {
    let name = name_table(&[(3, 1, 1033, 6, 0, 8)], &[0x00, 0x54, 0x00, 0x65, 0x00, 0x73, 0x00, 0x74]);
    let p = TTFParser::new(&font_with_name(name), None).unwrap();
    let t = p.tables.name.as_ref().unwrap();
    assert_eq!(t.names[0].name, "Test");
    assert_eq!(t.names[0].platform_id, PlatformId::Windows);
    assert_eq!(t.names[0].name_id, NameId::PostScriptName);
    assert_eq!(t.names[0].language_id, "1033");
}

#[test]
fn macintosh_names_decode_as_utf8() {
    let name = name_table(&[(1, 0, 0, 2, 0, 7)], b"Regular");
    let p = TTFParser::new(&font_with_name(name), None).unwrap();
    let t = p.tables.name.as_ref().unwrap();
    assert_eq!(t.names[0].name, "Regular");
    assert_eq!(t.names[0].platform_id, PlatformId::Macintosh);
    assert_eq!(t.names[0].name_id, NameId::Subfamily);
}

#[test]
fn invalid_utf8_becomes_empty_string() {
    let name = name_table(&[(1, 0, 0, 2, 0, 2)], &[0xFF, 0xFE]);
    let p = TTFParser::new(&font_with_name(name), None).unwrap();
    assert_eq!(p.tables.name.as_ref().unwrap().names[0].name, "");
}

#[test]
fn unpaired_surrogate_becomes_empty_string() {
    let name = name_table(&[(0, 3, 0, 1, 0, 2)], &[0xD8, 0x00]);
    let p = TTFParser::new(&font_with_name(name), None).unwrap();
    assert_eq!(p.tables.name.as_ref().unwrap().names[0].name, "");
}

#[test]
fn record_with_string_past_storage_is_dropped() {
    // Two records: the second one's string offset points past the end of the
    // storage area; only the first survives, with no error.
    let name = name_table(
        &[(0, 3, 0, 1, 0, 4), (0, 3, 0, 4, 100, 4)],
        &[0x00, 0x41, 0x00, 0x42],
    );
    let p = TTFParser::new(&font_with_name(name), None).unwrap();
    let t = p.tables.name.as_ref().unwrap();
    assert_eq!(t.names.len(), 1);
    assert_eq!(t.names[0].name, "AB");
    assert_eq!(t.names[0].name_id, NameId::Family);
}

#[test]
fn record_with_unknown_platform_is_dropped() {
    let name = name_table(&[(7, 0, 0, 1, 0, 1), (1, 0, 0, 1, 0, 1)], b"x");
    let p = TTFParser::new(&font_with_name(name), None).unwrap();
    let t = p.tables.name.as_ref().unwrap();
    assert_eq!(t.names.len(), 1);
    assert_eq!(t.names[0].platform_id, PlatformId::Macintosh);
}

#[test]
fn name_table_with_overlong_record_count_is_absent() {
    let mut name = name_table(&[(0, 3, 0, 1, 0, 4)], &[0x00, 0x41, 0x00, 0x42]);
    name[2..4].copy_from_slice(&be16(1000));
    let p = TTFParser::new(&font_with_name(name), None).unwrap();
    assert!(p.tables.name.is_none());
    let p = TTFParser::new(&font_with_name(vec![0u8; 4]), None).unwrap();
    assert!(p.tables.name.is_none());
}

#[test]
fn name_id_buckets() {
    let cases: [(i32, NameId); 6] = [
        (0, NameId::CopyrightNotice),
        (4, NameId::FullName),
        (15, NameId::Unknown),
        (16, NameId::TypographicFamily),
        (25, NameId::VariationsPostScriptNamePrefix),
        (26, NameId::Unknown),
    ];
    for (raw, expected) in cases {
        let name = name_table(&[(1, 0, 0, raw, 0, 1)], b"x");
        let p = TTFParser::new(&font_with_name(name), None).unwrap();
        assert_eq!(p.tables.name.as_ref().unwrap().names[0].name_id, expected);
    }
}

#[test]
fn odd_utf16_byte_is_ignored() {
    let name = name_table(&[(0, 3, 0, 1, 0, 3)], &[0x00, 0x41, 0x00]);
    let p = TTFParser::new(&font_with_name(name), None).unwrap();
    assert_eq!(p.tables.name.as_ref().unwrap().names[0].name, "A");
}
