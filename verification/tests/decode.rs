//! Decoding tests over hand-built font buffers.

use font_meta::tables::head::IndexToLocationFormat;
use font_meta::tables::os2::{Permissions, ScriptMetrics, Style, Width};
use font_meta::tables::Weight;
use font_meta::{FontError, TTFParser};

fn set_u16(t: &mut [u8], off: usize, v: u16) {
    t[off..off + 2].copy_from_slice(&v.to_be_bytes());
}

fn set_i16(t: &mut [u8], off: usize, v: i16) {
    t[off..off + 2].copy_from_slice(&v.to_be_bytes());
}

fn set_u32(t: &mut [u8], off: usize, v: u32) {
    t[off..off + 4].copy_from_slice(&v.to_be_bytes());
}

fn head_table() -> Vec<u8> {
    let mut t = vec![0u8; 54];
    set_u16(&mut t, 18, 1000);
    set_i16(&mut t, 36, -10);
    set_i16(&mut t, 38, -20);
    set_i16(&mut t, 40, 100);
    set_i16(&mut t, 42, 200);
    set_u16(&mut t, 50, 0);
    t
}

fn hhea_table(ascender: i16, descender: i16, line_gap: i16) -> Vec<u8> {
    let mut t = vec![0u8; 36];
    set_u32(&mut t, 0, 0x00010000);
    set_i16(&mut t, 4, ascender);
    set_i16(&mut t, 6, descender);
    set_i16(&mut t, 8, line_gap);
    set_u16(&mut t, 34, 3);
    t
}

fn maxp_table(glyphs: u16) -> Vec<u8> {
    let mut t = vec![0u8; 6];
    set_u32(&mut t, 0, 0x00010000);
    set_u16(&mut t, 4, glyphs);
    t
}

fn os2_table(version: u16) -> Vec<u8> {
    let len = match version {
        0 => 78,
        1 => 86,
        5 => 100,
        _ => 96,
    };
    let mut t = vec![0u8; len];
    set_u16(&mut t, 0, version);
    set_u16(&mut t, 4, 400);
    set_u16(&mut t, 6, 5);
    t
}

fn font(tables: Vec<([u8; 4], Vec<u8>)>) -> Vec<u8> {
    let mut tables = tables;
    tables.sort_by(|a, b| a.0.cmp(&b.0));
    let n = tables.len();
    let mut out = Vec::new();
    out.extend_from_slice(&0x00010000u32.to_be_bytes());
    out.extend_from_slice(&(n as u16).to_be_bytes());
    out.extend_from_slice(&[0u8; 6]);
    let mut offset = 12 + 16 * n;
    let mut body: Vec<u8> = Vec::new();
    for (tag, content) in &tables {
        out.extend_from_slice(tag);
        out.extend_from_slice(&0u32.to_be_bytes());
        out.extend_from_slice(&(offset as u32).to_be_bytes());
        out.extend_from_slice(&(content.len() as u32).to_be_bytes());
        offset += content.len();
        body.extend_from_slice(content);
    }
    out.extend_from_slice(&body);
    out
}

fn collection(faces: Vec<Vec<([u8; 4], Vec<u8>)>>) -> Vec<u8> {
    let nfaces = faces.len();
    let header = 12 + 4 * nfaces;
    let mut out = Vec::new();
    out.extend_from_slice(b"ttcf");
    out.extend_from_slice(&0x00010000u32.to_be_bytes());
    out.extend_from_slice(&(nfaces as u32).to_be_bytes());
    let mut dir_sizes = Vec::new();
    for tables in &faces {
        dir_sizes.push(12 + 16 * tables.len());
    }
    let mut pos = header;
    for size in &dir_sizes {
        out.extend_from_slice(&(pos as u32).to_be_bytes());
        pos += size;
    }
    let mut data_pos = pos;
    let mut body: Vec<u8> = Vec::new();
    for tables in faces {
        let mut tables = tables;
        tables.sort_by(|a, b| a.0.cmp(&b.0));
        out.extend_from_slice(&0x00010000u32.to_be_bytes());
        out.extend_from_slice(&(tables.len() as u16).to_be_bytes());
        out.extend_from_slice(&[0u8; 6]);
        for (tag, content) in &tables {
            out.extend_from_slice(tag);
            out.extend_from_slice(&0u32.to_be_bytes());
            out.extend_from_slice(&(data_pos as u32).to_be_bytes());
            out.extend_from_slice(&(content.len() as u32).to_be_bytes());
            data_pos += content.len();
            body.extend_from_slice(content);
        }
    }
    out.extend_from_slice(&body);
    out
}

fn required() -> Vec<([u8; 4], Vec<u8>)> {
    vec![
        (*b"head", head_table()),
        (*b"hhea", hhea_table(800, -200, 90)),
        (*b"maxp", maxp_table(5)),
    ]
}

#[test]
fn minimal_font_decodes() {
    let data = font(required());
    let p = TTFParser::new(&data, 0).unwrap();
    assert_eq!(p.units_per_em, 1000);
    assert!(16 <= p.units_per_em && p.units_per_em <= 16384);
    assert_eq!(p.number_of_glyphs, 5);
    assert_ne!(p.number_of_glyphs, 0);
    assert_eq!(p.ascender, 800);
    assert_eq!(p.descender, -200);
    assert_eq!(p.height, 1000);
    assert_eq!(p.line_gap, 90);
    let bbox = p.global_bounding_box();
    assert_eq!(bbox.x_min, -10);
    assert_eq!(bbox.y_min, -20);
    assert_eq!(bbox.x_max, 100);
    assert_eq!(bbox.y_max, 200);
    assert_eq!(
        p.tables().head.index_to_location_format,
        IndexToLocationFormat::Short
    );
    assert_eq!(p.tables().hhea.number_of_metrics, 3);
}

#[test]
fn empty_and_garbage_buffers_are_invalid_containers() {
    assert_eq!(TTFParser::new(&Vec::new(), 0), Err(FontError::InvalidContainer));
    assert_eq!(
        TTFParser::new(&vec![1, 2, 3, 4, 5, 6, 7, 8], 0),
        Err(FontError::InvalidContainer)
    );
}

#[test]
fn out_of_range_index_on_plain_font_is_invalid_container() {
    let data = font(required());
    assert_eq!(TTFParser::new(&data, 1), Err(FontError::InvalidContainer));
}

#[test]
fn missing_required_tables_fail() {
    let data = font(vec![(*b"head", head_table()), (*b"hhea", hhea_table(800, -200, 90))]);
    assert_eq!(TTFParser::new(&data, 0), Err(FontError::MissingRequiredTable));
    let data = font(vec![(*b"hhea", hhea_table(800, -200, 90)), (*b"maxp", maxp_table(5))]);
    assert_eq!(TTFParser::new(&data, 0), Err(FontError::MissingRequiredTable));
}

#[test]
fn truncated_head_is_a_fatal_error_not_a_panic() {
    let mut tables = required();
    tables[0].1.truncate(40);
    let data = font(tables);
    let r = TTFParser::new(&data, 0);
    assert!(
        r == Err(FontError::MissingRequiredTable) || r == Err(FontError::MalformedRequiredField)
    );
}

#[test]
fn units_per_em_out_of_range_is_malformed() {
    let mut tables = required();
    set_u16(&mut tables[0].1, 18, 10);
    let data = font(tables);
    assert_eq!(TTFParser::new(&data, 0), Err(FontError::MalformedRequiredField));
    let mut tables = required();
    set_u16(&mut tables[0].1, 18, 16385);
    let data = font(tables);
    assert_eq!(TTFParser::new(&data, 0), Err(FontError::MalformedRequiredField));
}

#[test]
fn zero_glyph_count_is_malformed_not_default() {
    let mut tables = required();
    tables[2].1 = maxp_table(0);
    let data = font(tables);
    assert_eq!(TTFParser::new(&data, 0), Err(FontError::MalformedRequiredField));
}

#[test]
fn os2_absent_defaults() {
    let data = font(required());
    let p = TTFParser::new(&data, 0).unwrap();
    assert_eq!(p.permissions, Permissions::Malformed);
    assert_eq!(p.is_bold, false);
    assert_eq!(p.is_italic, false);
    assert_eq!(p.is_regular, false);
    assert_eq!(p.is_oblique, false);
    assert_eq!(p.typographic_ascender, None);
    assert_eq!(p.typographic_descender, None);
    assert_eq!(p.typographic_line_gap, None);
    assert_eq!(p.x_height, None);
    assert_eq!(p.capital_height, None);
    assert_eq!(p.superscript_metrics, None);
    assert_eq!(p.is_subsetting_allowed, false);
    assert_eq!(p.is_bitmap_embedding_allowed, false);
    assert!(p.tables().os2.is_none());
}

#[test]
fn os2_low_version_has_no_heights() {
    let mut os2 = os2_table(1);
    set_u16(&mut os2, 62, 0);
    let mut tables = required();
    tables.push((*b"OS/2", os2));
    let data = font(tables);
    let p = TTFParser::new(&data, 0).unwrap();
    assert!(p.tables().os2.is_some());
    assert_eq!(p.x_height, None);
    assert_eq!(p.capital_height, None);
}

#[test]
fn os2_version2_reports_heights() {
    let mut os2 = os2_table(2);
    set_i16(&mut os2, 86, 480);
    set_i16(&mut os2, 88, 700);
    let mut tables = required();
    tables.push((*b"OS/2", os2));
    let data = font(tables);
    let p = TTFParser::new(&data, 0).unwrap();
    assert_eq!(p.x_height, Some(480));
    assert_eq!(p.capital_height, Some(700));
}

#[test]
fn oblique_bit_is_ignored_below_version4() {
    let mut os2 = os2_table(0);
    set_u16(&mut os2, 62, 0x0200);
    let mut tables = required();
    tables.push((*b"OS/2", os2));
    let data = font(tables);
    let p = TTFParser::new(&data, 0).unwrap();
    assert_eq!(p.is_oblique, false);
    assert_eq!(p.tables().os2.unwrap().style, Style::Normal);
    assert_eq!(p.is_regular, true);
}

#[test]
fn oblique_bit_counts_from_version4() {
    let mut os2 = os2_table(4);
    set_u16(&mut os2, 62, 0x0200);
    let mut tables = required();
    tables.push((*b"OS/2", os2));
    let data = font(tables);
    let p = TTFParser::new(&data, 0).unwrap();
    assert_eq!(p.is_oblique, true);
    assert_eq!(p.tables().os2.unwrap().style, Style::Oblique);
    assert_eq!(p.is_regular, false);
}

#[test]
fn bold_and_italic_come_from_selection_bits() {
    let mut os2 = os2_table(4);
    set_u16(&mut os2, 62, 0x0021);
    let mut tables = required();
    tables.push((*b"OS/2", os2));
    let data = font(tables);
    let p = TTFParser::new(&data, 0).unwrap();
    assert_eq!(p.is_bold, true);
    assert_eq!(p.is_italic, true);
    assert_eq!(p.tables().os2.unwrap().style, Style::Italic);
}

#[test]
fn unknown_permission_bits_are_malformed_without_aborting() {
    let mut os2 = os2_table(4);
    set_u16(&mut os2, 8, 0x000C);
    set_u16(&mut os2, 4, 700);
    let mut tables = required();
    tables.push((*b"OS/2", os2));
    let data = font(tables);
    let p = TTFParser::new(&data, 0).unwrap();
    assert_eq!(p.permissions, Permissions::Malformed);
    assert_eq!(p.units_per_em, 1000);
    assert_eq!(p.tables().os2.unwrap().weight, Weight::Bold);
}

#[test]
fn permission_values_from_version3_on() {
    for (bits, expected) in [
        (0u16, Permissions::Installable),
        (2, Permissions::Restricted),
        (4, Permissions::PreviewAndPrint),
        (8, Permissions::Editable),
    ] {
        let mut os2 = os2_table(4);
        set_u16(&mut os2, 8, bits);
        let mut tables = required();
        tables.push((*b"OS/2", os2));
        let data = font(tables);
        let p = TTFParser::new(&data, 0).unwrap();
        assert_eq!(p.permissions, expected);
    }
}

#[test]
fn early_versions_take_the_most_permissive_permission() {
    let mut os2 = os2_table(0);
    set_u16(&mut os2, 8, 0x000C);
    let mut tables = required();
    tables.push((*b"OS/2", os2));
    let data = font(tables);
    let p = TTFParser::new(&data, 0).unwrap();
    assert_eq!(p.permissions, Permissions::Editable);
}

#[test]
fn weight_and_width_decode_totally() {
    let mut os2 = os2_table(4);
    set_u16(&mut os2, 4, 123);
    set_u16(&mut os2, 6, 9);
    let mut tables = required();
    tables.push((*b"OS/2", os2));
    let data = font(tables);
    let p = TTFParser::new(&data, 0).unwrap();
    let t = p.tables().os2.unwrap();
    assert_eq!(t.weight, Weight::Other(123));
    assert_eq!(t.width, Width::UltraExpanded);
    let mut os2 = os2_table(4);
    set_u16(&mut os2, 4, 100);
    set_u16(&mut os2, 6, 77);
    let mut tables = required();
    tables.push((*b"OS/2", os2));
    let data = font(tables);
    let p = TTFParser::new(&data, 0).unwrap();
    let t = p.tables().os2.unwrap();
    assert_eq!(t.weight, Weight::Thin);
    assert_eq!(t.width, Width::Normal);
}

#[test]
fn script_and_strikeout_metrics_decode() {
    let mut os2 = os2_table(4);
    set_i16(&mut os2, 10, 1);
    set_i16(&mut os2, 12, 2);
    set_i16(&mut os2, 14, 3);
    set_i16(&mut os2, 16, 4);
    set_i16(&mut os2, 18, 5);
    set_i16(&mut os2, 20, 6);
    set_i16(&mut os2, 22, 7);
    set_i16(&mut os2, 24, 8);
    set_i16(&mut os2, 26, 9);
    set_i16(&mut os2, 28, 10);
    let mut tables = required();
    tables.push((*b"OS/2", os2));
    let data = font(tables);
    let p = TTFParser::new(&data, 0).unwrap();
    let t = p.tables().os2.unwrap();
    assert_eq!(
        t.subscript_metrics,
        ScriptMetrics { x_size: 1, y_size: 2, x_offset: 3, y_offset: 4 }
    );
    assert_eq!(
        p.superscript_metrics,
        Some(ScriptMetrics { x_size: 5, y_size: 6, x_offset: 7, y_offset: 8 })
    );
    assert_eq!(t.strikeout_metrics.thickness, 9);
    assert_eq!(t.strikeout_metrics.position, 10);
}

#[test]
fn typographic_metrics_prevail_when_requested() {
    let mut os2 = os2_table(4);
    set_u16(&mut os2, 62, 0x0080);
    set_i16(&mut os2, 68, 750);
    set_i16(&mut os2, 70, -250);
    set_i16(&mut os2, 72, 50);
    let mut tables = required();
    tables.push((*b"OS/2", os2));
    let data = font(tables);
    let p = TTFParser::new(&data, 0).unwrap();
    assert_eq!(p.ascender, 750);
    assert_eq!(p.descender, -250);
    assert_eq!(p.line_gap, 50);
    assert_eq!(p.height, 1000);
    assert_eq!(p.typographic_ascender, Some(750));
    assert_eq!(p.typographic_descender, Some(-250));
    assert_eq!(p.typographic_line_gap, Some(50));
}

#[test]
fn zero_hhea_ascender_falls_back_to_typographic() {
    let mut os2 = os2_table(4);
    set_i16(&mut os2, 68, 777);
    let mut tables = vec![
        (*b"head", head_table()),
        (*b"hhea", hhea_table(0, -200, 90)),
        (*b"maxp", maxp_table(5)),
    ];
    tables.push((*b"OS/2", os2));
    let data = font(tables);
    let p = TTFParser::new(&data, 0).unwrap();
    assert_eq!(p.ascender, 777);
}

#[test]
fn vertical_metrics_come_from_vhea() {
    let mut vhea = vec![0u8; 36];
    set_u32(&mut vhea, 0, 0x00010000);
    set_i16(&mut vhea, 4, 500);
    set_i16(&mut vhea, 6, -500);
    set_i16(&mut vhea, 8, 10);
    let mut tables = required();
    tables.push((*b"vhea", vhea));
    let data = font(tables);
    let p = TTFParser::new(&data, 0).unwrap();
    assert_eq!(p.vertical_ascender, Some(500));
    assert_eq!(p.vertical_descender, Some(-500));
    assert_eq!(p.vertical_height, Some(1000));
    assert_eq!(p.vertical_line_gap, Some(10));
    let p = TTFParser::new(&font(required()), 0).unwrap();
    assert_eq!(p.vertical_ascender, None);
    assert_eq!(p.vertical_height, None);
}

#[test]
fn monospace_flag_comes_from_post() {
    let mut post = vec![0u8; 32];
    set_u32(&mut post, 0, 0x00030000);
    set_u32(&mut post, 12, 1);
    let mut tables = required();
    tables.push((*b"post", post));
    let data = font(tables);
    let p = TTFParser::new(&data, 0).unwrap();
    assert_eq!(p.is_monospaced, true);
    let p = TTFParser::new(&font(required()), 0).unwrap();
    assert_eq!(p.is_monospaced, false);
    let mut bad_post = vec![0u8; 32];
    set_u32(&mut bad_post, 0, 0x00090000);
    set_u32(&mut bad_post, 12, 1);
    let mut tables = required();
    tables.push((*b"post", bad_post));
    let p = TTFParser::new(&font(tables), 0).unwrap();
    assert_eq!(p.is_monospaced, false);
}

#[test]
fn variable_means_fvar_presence() {
    let mut tables = required();
    tables.push((*b"fvar", vec![0u8; 16]));
    let data = font(tables);
    let p = TTFParser::new(&data, 0).unwrap();
    assert_eq!(p.is_variable, true);
    let p = TTFParser::new(&font(required()), 0).unwrap();
    assert_eq!(p.is_variable, false);
}

#[test]
fn decoding_twice_yields_identical_metadata() {
    let mut os2 = os2_table(4);
    set_u16(&mut os2, 62, 0x0060);
    let mut tables = required();
    tables.push((*b"OS/2", os2));
    let data = font(tables);
    let p1 = TTFParser::new(&data, 0).unwrap();
    let p2 = TTFParser::new(&data, 0).unwrap();
    assert_eq!(p1, p2);
}

#[test]
fn collection_faces_are_independent_and_index_checked() {
    let face0 = required();
    let mut head2 = head_table();
    set_u16(&mut head2, 18, 2000);
    let face1 = vec![
        (*b"head", head2.clone()),
        (*b"hhea", hhea_table(600, -150, 0)),
        (*b"maxp", maxp_table(7)),
    ];
    let face2 = vec![
        (*b"head", head2),
        (*b"hhea", hhea_table(600, -150, 0)),
        (*b"maxp", maxp_table(9)),
    ];
    let data = collection(vec![face0, face1, face2]);
    assert_eq!(TTFParser::new(&data, 5), Err(FontError::InvalidContainer));
    let p0 = TTFParser::new(&data, 0).unwrap();
    let p2 = TTFParser::new(&data, 2).unwrap();
    assert_eq!(p0.units_per_em, 1000);
    assert_eq!(p0.number_of_glyphs, 5);
    assert_eq!(p2.units_per_em, 2000);
    assert_eq!(p2.number_of_glyphs, 9);
}

#[test]
fn truncated_os2_degrades_to_none_without_aborting() {
    let mut os2 = os2_table(4);
    os2.truncate(50);
    let mut tables = required();
    tables.push((*b"OS/2", os2));
    let data = font(tables);
    let p = TTFParser::new(&data, 0).unwrap();
    assert!(p.tables().os2.is_none());
    assert_eq!(p.permissions, Permissions::Malformed);
    assert_eq!(p.units_per_em, 1000);
}

#[test]
fn unsupported_os2_version_degrades_to_none() {
    let os2 = {
        let mut t = vec![0u8; 96];
        t[1] = 9;
        t
    };
    let mut tables = required();
    tables.push((*b"OS/2", os2));
    let data = font(tables);
    let p = TTFParser::new(&data, 0).unwrap();
    assert!(p.tables().os2.is_none());
}

#[test]
fn long_location_format_decodes() {
    let mut tables = required();
    set_u16(&mut tables[0].1, 50, 1);
    let data = font(tables);
    let p = TTFParser::new(&data, 0).unwrap();
    assert_eq!(
        p.tables().head.index_to_location_format,
        IndexToLocationFormat::Long
    );
    let mut tables = required();
    set_u16(&mut tables[0].1, 50, 2);
    let data = font(tables);
    assert_eq!(TTFParser::new(&data, 0), Err(FontError::MalformedRequiredField));
}

#[test]
fn oversized_collection_face_count_is_invalid_container_not_a_panic() {
    let mut data = Vec::new();
    data.extend_from_slice(b"ttcf");
    data.extend_from_slice(&0x00010000u32.to_be_bytes());
    data.extend_from_slice(&0x40000000u32.to_be_bytes());
    assert_eq!(data.len(), 12);
    assert_eq!(TTFParser::new(&data, 0), Err(FontError::InvalidContainer));
    assert_eq!(TTFParser::new(&data, 5), Err(FontError::InvalidContainer));
}

#[test]
fn collection_with_plausible_face_count_still_parses_normally() {
    let mut data = Vec::new();
    data.extend_from_slice(b"ttcf");
    data.extend_from_slice(&0x00010000u32.to_be_bytes());
    data.extend_from_slice(&3u32.to_be_bytes());
    assert_eq!(TTFParser::new(&data, 0), Err(FontError::InvalidContainer));
}
