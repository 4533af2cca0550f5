//! Decoding of OpenType/TrueType font metadata.
//!
//! Given a raw font buffer (optionally a collection) and a face index, this
//! crate locates the `head`, `hhea`, `maxp`, `OS/2` and `name` tables and
//! decodes them into structured, validated metadata: face metrics, style
//! flags, permissions and localized name strings.  The required tables
//! (`head`, `hhea`, `maxp`) are fail-fast: a missing or malformed one aborts
//! the whole decode.  The optional tables (`OS/2`, `name`) degrade to
//! documented defaults instead.

use vstd::prelude::*;

pub mod bytes;
pub mod collab;
pub mod directory;
pub mod tables;
pub mod text;

use crate::bytes::be_u16_at;
use crate::collab::{parse_vhea, post_monospaced, spec_parse_vhea, spec_post_monospaced, VheaTable};
use crate::directory::{directory_of, face_tables, parse_raw_face, raw_table};
use crate::tables::head::spec_parse_head;
use crate::tables::hhea::spec_parse_hhea;
use crate::tables::maxp::spec_parse_maxp;
use crate::tables::name::spec_parse_name;
use crate::tables::os2::{spec_parse_os2, Permissions, ScriptMetrics, Style};
use crate::tables::{head, hhea, maxp, name, os2, Rect, Tables};

verus! {

/// A fatal decoding failure.  Degraded outcomes (an absent or inconsistent
/// optional table) are never reported through this type: they are encoded in
/// the decoded metadata itself.
#[derive(Clone, Copy, Debug, PartialEq, Eq, Structural)]
pub enum FontError {
    /// The buffer is too short or malformed to locate a table directory, or
    /// the face index is out of range for the collection.
    InvalidContainer,
    /// One of the required tables (`head`, `hhea`, `maxp`) is absent.
    MissingRequiredTable,
    /// A required table is present but truncated or a field violates its
    /// invariant (`units_per_em` out of range, `number_of_glyphs` zero).
    MalformedRequiredField,
}

/// The packed big-endian tag of the `head` table.
pub const HEAD_TAG: u32 = 0x68656164;

/// The packed big-endian tag of the `hhea` table.
pub const HHEA_TAG: u32 = 0x68686561;

/// The packed big-endian tag of the `maxp` table.
pub const MAXP_TAG: u32 = 0x6D617870;

/// The packed big-endian tag of the `OS/2` table.
pub const OS2_TAG: u32 = 0x4F532F32;

/// The packed big-endian tag of the `name` table.
pub const NAME_TAG: u32 = 0x6E616D65;

/// The packed big-endian tag of the `post` table.
pub const POST_TAG: u32 = 0x706F7374;

/// The packed big-endian tag of the `vhea` table.
pub const VHEA_TAG: u32 = 0x76686561;

/// The packed big-endian tag of the `fvar` table.
pub const FVAR_TAG: u32 = 0x66766172;

/// Subtraction that wraps around the signed 16-bit range.
pub open spec fn spec_wrap_sub16(a: int, b: int) -> int {
    if a - b > 32767 {
        a - b - 65536
    } else if a - b < -32768 {
        a - b + 65536
    } else {
        a - b
    }
}

fn wrap_sub16(a: i16, b: i16) -> (r: i16)
    ensures
        r == spec_wrap_sub16(a as int, b as int),
{
    let wide: i32 = a as i32 - b as i32;
    let adj: i32 = if wide > 32767 {
        wide - 65536
    } else if wide < -32768 {
        wide + 65536
    } else {
        wide
    };
    adj as i16
}

/// The face style: normal when the OS/2 table is absent.
pub open spec fn spec_style_of(os2v: Option<os2::Table>) -> Style {
    match os2v {
        Some(t) => t.style,
        None => Style::Normal,
    }
}

/// Bold is sourced from the OS/2 selection bits alone; false without OS/2.
pub open spec fn spec_is_bold(os2v: Option<os2::Table>) -> bool {
    match os2v {
        Some(t) => t.is_bold,
        None => false,
    }
}

/// Italic is sourced from the OS/2 style alone; false without OS/2.
pub open spec fn spec_is_italic(os2v: Option<os2::Table>) -> bool {
    os2v is Some && spec_style_of(os2v) == Style::Italic
}

/// Oblique is sourced from the OS/2 style alone (whose decode ignores the
/// oblique bit below version 4); false without OS/2.
pub open spec fn spec_is_oblique(os2v: Option<os2::Table>) -> bool {
    os2v is Some && spec_style_of(os2v) == Style::Oblique
}

/// Regular means an OS/2 style of normal; false without OS/2.
pub open spec fn spec_is_regular(os2v: Option<os2::Table>) -> bool {
    os2v is Some && spec_style_of(os2v) == Style::Normal
}

/// Permissions are Malformed both without OS/2 and for unrecognized bits.
pub open spec fn spec_permissions_of(os2v: Option<os2::Table>) -> Permissions {
    match os2v {
        Some(t) => t.permissions,
        None => Permissions::Malformed,
    }
}

/// The face-level ascender: the typographic one when OS/2 asks for
/// typographic metrics; else the `hhea` one, falling back to the
/// typographic and then the Windows ascender when `hhea` has zero.
pub open spec fn spec_ascender(hh: hhea::Table, os2v: Option<os2::Table>) -> i16 {
    if os2v matches Some(t) && t.use_typographic_metrics {
        os2v.unwrap().typographic_ascender
    } else if hh.ascender == 0 && os2v is Some {
        if os2v.unwrap().typographic_ascender != 0 {
            os2v.unwrap().typographic_ascender
        } else {
            os2v.unwrap().windows_ascender
        }
    } else {
        hh.ascender
    }
}

/// The face-level descender, by the same fallback chain as the ascender.
pub open spec fn spec_descender(hh: hhea::Table, os2v: Option<os2::Table>) -> i16 {
    if os2v matches Some(t) && t.use_typographic_metrics {
        os2v.unwrap().typographic_descender
    } else if hh.descender == 0 && os2v is Some {
        if os2v.unwrap().typographic_descender != 0 {
            os2v.unwrap().typographic_descender
        } else {
            os2v.unwrap().windows_descender
        }
    } else {
        hh.descender
    }
}

/// The face-level line gap: the typographic one when OS/2 asks for
/// typographic metrics; else the `hhea` one, replaced by the typographic
/// line gap (or zero) when either `hhea` extremum is zero.
pub open spec fn spec_line_gap(hh: hhea::Table, os2v: Option<os2::Table>) -> i16 {
    if os2v matches Some(t) && t.use_typographic_metrics {
        os2v.unwrap().typographic_line_gap
    } else if (hh.ascender == 0 || hh.descender == 0) && os2v is Some {
        if os2v.unwrap().typographic_ascender != 0 || os2v.unwrap().typographic_descender != 0 {
            os2v.unwrap().typographic_line_gap
        } else {
            0
        }
    } else {
        hh.line_gap
    }
}

/// The face height: ascender minus descender, wrapping in 16 bits.
pub open spec fn spec_height(hh: hhea::Table, os2v: Option<os2::Table>) -> i16 {
    spec_wrap_sub16(spec_ascender(hh, os2v) as int, spec_descender(hh, os2v) as int) as i16
}

/// The vertical height: vertical ascender minus vertical descender.
pub open spec fn spec_vertical_height(v: Option<VheaTable>) -> Option<i16> {
    match v {
        Some(t) => Some(spec_wrap_sub16(t.ascender as int, t.descender as int) as i16),
        None => None,
    }
}

/// The table bytes under a tag, when the directory holds that tag.
pub open spec fn spec_table(m: Map<int, Seq<u8>>, tag: int) -> Option<Seq<u8>> {
    if m.contains_key(tag) {
        Some(m[tag])
    } else {
        None
    }
}

/// The fatal outcome that the required tables of a directory force, if any:
/// checked in order `head`, `hhea`, `maxp`, each absent table a
/// `MissingRequiredTable` and each undecodable one a
/// `MalformedRequiredField`.
pub open spec fn spec_required_error(m: Map<int, Seq<u8>>) -> Option<FontError> {
    match spec_table(m, HEAD_TAG as int) {
        None => Some(FontError::MissingRequiredTable),
        Some(hb) => match spec_parse_head(hb) {
            None => Some(FontError::MalformedRequiredField),
            Some(_) => match spec_table(m, HHEA_TAG as int) {
                None => Some(FontError::MissingRequiredTable),
                Some(hhb) => match spec_parse_hhea(hhb) {
                    None => Some(FontError::MalformedRequiredField),
                    Some(_) => match spec_table(m, MAXP_TAG as int) {
                        None => Some(FontError::MissingRequiredTable),
                        Some(mb) => match spec_parse_maxp(mb) {
                            None => Some(FontError::MalformedRequiredField),
                            Some(_) => None,
                        },
                    },
                },
            },
        },
    }
}

/// The OS/2 record that a directory yields: absent table or undecodable
/// bytes both degrade to `None`.
pub open spec fn spec_os2_of(m: Map<int, Seq<u8>>) -> Option<os2::Table> {
    match spec_table(m, OS2_TAG as int) {
        Some(b) => spec_parse_os2(b),
        None => None,
    }
}

/// The vertical metrics that a directory yields.
pub open spec fn spec_vhea_of(m: Map<int, Seq<u8>>) -> Option<VheaTable> {
    match spec_table(m, VHEA_TAG as int) {
        Some(b) => spec_parse_vhea(b),
        None => None,
    }
}

/// The monospace flag that a directory yields; false without a (valid)
/// `post` table.
pub open spec fn spec_monospaced_of(m: Map<int, Seq<u8>>) -> bool {
    match spec_table(m, POST_TAG as int) {
        Some(b) => spec_post_monospaced(b) == Some(true),
        None => false,
    }
}

/// The decoded name records that a directory yields.
pub open spec fn spec_names_of(m: Map<int, Seq<u8>>) -> Option<Seq<name::NameRecordView>> {
    match spec_table(m, NAME_TAG as int) {
        Some(b) => spec_parse_name(b),
        None => None,
    }
}

/// The name-record list of decoded metadata: the decoded table's records,
/// or the empty sequence when the `name` table is absent or malformed.
pub open spec fn spec_names(p: TTFParser) -> Seq<name::NameRecordView> {
    match p.tables.name {
        Some(t) => t@,
        None => Seq::<name::NameRecordView>::empty(),
    }
}

/// Decoded metadata of one font face: the decoded tables plus the derived
/// face-level flags and metrics.  Constructed once per decode and immutable
/// thereafter.
#[derive(Clone, Debug, PartialEq)]
pub struct TTFParser {
    /// The decoded tables of the face.
    pub tables: Tables,
    /// Whether the face is marked as bold.  False without an OS/2 table.
    pub is_bold: bool,
    /// Whether the face is marked as italic.  False without an OS/2 table.
    pub is_italic: bool,
    /// Whether the face is marked as monospaced.  False without a `post`
    /// table.
    pub is_monospaced: bool,
    /// Whether the face is marked as oblique.  False without an OS/2 table
    /// or when its version is below 4.
    pub is_oblique: bool,
    /// Whether the face is marked as regular.  False without an OS/2 table.
    pub is_regular: bool,
    /// Whether the face is variable: the presence of an `fvar` table.
    pub is_variable: bool,
    /// The horizontal face ascender.
    pub ascender: i16,
    /// The horizontal face descender.
    pub descender: i16,
    /// The face height.
    pub height: i16,
    /// The horizontal face line gap.
    pub line_gap: i16,
    /// The typographic ascender; `None` without an OS/2 table.
    pub typographic_ascender: Option<i16>,
    /// The typographic descender; `None` without an OS/2 table.
    pub typographic_descender: Option<i16>,
    /// The typographic line gap; `None` without an OS/2 table.
    pub typographic_line_gap: Option<i16>,
    /// The vertical face ascender; `None` without a `vhea` table.
    pub vertical_ascender: Option<i16>,
    /// The vertical face descender; `None` without a `vhea` table.
    pub vertical_descender: Option<i16>,
    /// The vertical face height; `None` without a `vhea` table.
    pub vertical_height: Option<i16>,
    /// The vertical face line gap; `None` without a `vhea` table.
    pub vertical_line_gap: Option<i16>,
    /// Units per EM, always within 16..=16384.
    pub units_per_em: u16,
    /// The x height; `None` without an OS/2 table of version >= 2.
    pub x_height: Option<i16>,
    /// The capital height; `None` without an OS/2 table of version >= 2.
    pub capital_height: Option<i16>,
    /// Embedding permissions; `Malformed` without an OS/2 table or for
    /// unrecognized permission bits.
    pub permissions: Permissions,
    /// Whether face subsetting is allowed.  False without an OS/2 table.
    pub is_subsetting_allowed: bool,
    /// Whether embedding of bitmaps is allowed.  False without an OS/2
    /// table.
    pub is_bitmap_embedding_allowed: bool,
    /// The total number of glyphs.  Never zero.
    pub number_of_glyphs: u16,
    /// Superscript metrics; `None` without an OS/2 table.
    pub superscript_metrics: Option<ScriptMetrics>,
}

/// Whether decoded metadata agrees, field for field, with what the
/// aggregation rules derive from a table directory whose required tables
/// decode.
pub open spec fn spec_metadata_ok(p: TTFParser, m: Map<int, Seq<u8>>) -> bool {
    let h = spec_parse_head(spec_table(m, HEAD_TAG as int).unwrap()).unwrap();
    let hh = spec_parse_hhea(spec_table(m, HHEA_TAG as int).unwrap()).unwrap();
    let mx = spec_parse_maxp(spec_table(m, MAXP_TAG as int).unwrap()).unwrap();
    let os2v = spec_os2_of(m);
    let vh = spec_vhea_of(m);
    &&& p.tables.head == h
    &&& p.tables.hhea == hh
    &&& p.tables.maxp == mx
    &&& p.tables.os2 == os2v
    &&& match (p.tables.name, spec_names_of(m)) {
        (Some(t), Some(s)) => t@ == s,
        (None, None) => true,
        _ => false,
    }
    &&& p.is_bold == spec_is_bold(os2v)
    &&& p.is_italic == spec_is_italic(os2v)
    &&& p.is_monospaced == spec_monospaced_of(m)
    &&& p.is_oblique == spec_is_oblique(os2v)
    &&& p.is_regular == spec_is_regular(os2v)
    &&& p.is_variable == m.contains_key(FVAR_TAG as int)
    &&& p.ascender == spec_ascender(hh, os2v)
    &&& p.descender == spec_descender(hh, os2v)
    &&& p.height == spec_height(hh, os2v)
    &&& p.line_gap == spec_line_gap(hh, os2v)
    &&& p.typographic_ascender == match os2v {
        Some(t) => Some(t.typographic_ascender),
        None => None::<i16>,
    }
    &&& p.typographic_descender == match os2v {
        Some(t) => Some(t.typographic_descender),
        None => None::<i16>,
    }
    &&& p.typographic_line_gap == match os2v {
        Some(t) => Some(t.typographic_line_gap),
        None => None::<i16>,
    }
    &&& p.vertical_ascender == match vh {
        Some(t) => Some(t.ascender),
        None => None::<i16>,
    }
    &&& p.vertical_descender == match vh {
        Some(t) => Some(t.descender),
        None => None::<i16>,
    }
    &&& p.vertical_height == spec_vertical_height(vh)
    &&& p.vertical_line_gap == match vh {
        Some(t) => Some(t.line_gap),
        None => None::<i16>,
    }
    &&& p.units_per_em == h.units_per_em
    &&& p.x_height == match os2v {
        Some(t) => t.x_height,
        None => None::<i16>,
    }
    &&& p.capital_height == match os2v {
        Some(t) => t.capital_height,
        None => None::<i16>,
    }
    &&& p.permissions == spec_permissions_of(os2v)
    &&& p.is_subsetting_allowed == match os2v {
        Some(t) => t.is_subsetting_allowed,
        None => false,
    }
    &&& p.is_bitmap_embedding_allowed == match os2v {
        Some(t) => t.is_bitmap_embedding_allowed,
        None => false,
    }
    &&& p.number_of_glyphs == mx.number_of_glyphs
    &&& p.superscript_metrics == match os2v {
        Some(t) => Some(t.superscript_metrics),
        None => None::<ScriptMetrics>,
    }
}

impl TTFParser {
    /// Decodes the metadata of one face of a font buffer.
    ///
    /// `index` selects the face inside a font collection; a plain font has
    /// exactly face 0.  Required tables: `head`, `hhea` and `maxp` — a
    /// missing or malformed one fails the decode.  An optional table with
    /// invalid data is skipped.
    pub fn new(data: &Vec<u8>, index: u32) -> (r: Result<TTFParser, FontError>)
        ensures
            !directory::spec_in_parse_range(data@) ==> r == Err::<TTFParser, FontError>(
                FontError::InvalidContainer,
            ),
            directory::spec_in_parse_range(data@) && directory_of(data@, index) is None ==> r
                == Err::<TTFParser, FontError>(FontError::InvalidContainer),
            directory::spec_in_parse_range(data@) ==> (directory_of(data@, index) matches Some(m)
                ==> match spec_required_error(m) {
                Some(e) => r == Err::<TTFParser, FontError>(e),
                None => r matches Ok(p) && spec_metadata_ok(p, m),
            }),
            r matches Ok(p) ==> 16 <= p.units_per_em <= 16384 && p.number_of_glyphs > 0,
    {
        if !directory::in_parse_range(data) {
            return Err(FontError::InvalidContainer);
        }
        let face = match parse_raw_face(data, index) {
            Some(f) => f,
            None => {
                return Err(FontError::InvalidContainer);
            },
        };
        let ghost m = face_tables(face);
        let head_bytes = match raw_table(&face, HEAD_TAG) {
            Some(v) => v,
            None => {
                return Err(FontError::MissingRequiredTable);
            },
        };
        let head_table = match head::Table::new(&head_bytes) {
            Ok(t) => t,
            Err(e) => {
                return Err(e);
            },
        };
        let hhea_bytes = match raw_table(&face, HHEA_TAG) {
            Some(v) => v,
            None => {
                return Err(FontError::MissingRequiredTable);
            },
        };
        let hhea_table = match hhea::Table::new(&hhea_bytes) {
            Ok(t) => t,
            Err(e) => {
                return Err(e);
            },
        };
        let maxp_bytes = match raw_table(&face, MAXP_TAG) {
            Some(v) => v,
            None => {
                return Err(FontError::MissingRequiredTable);
            },
        };
        let maxp_table = match maxp::Table::new(&maxp_bytes) {
            Ok(t) => t,
            Err(e) => {
                return Err(e);
            },
        };
        let os2_bytes = raw_table(&face, OS2_TAG);
        let os2_table = os2::Table::new(os2_bytes.as_ref());
        let name_bytes = raw_table(&face, NAME_TAG);
        let name_table = name::Table::new(name_bytes.as_ref());
        let monospaced = match raw_table(&face, POST_TAG) {
            Some(v) => post_monospaced(&v) == Some(true),
            None => false,
        };
        let vhea_table = match raw_table(&face, VHEA_TAG) {
            Some(v) => parse_vhea(&v),
            None => None,
        };
        let is_variable = raw_table(&face, FVAR_TAG).is_some();
        let use_typo = match &os2_table {
            Some(t) => t.use_typographic_metrics,
            None => false,
        };
        let ascender = if use_typo {
            match &os2_table {
                Some(t) => t.typographic_ascender,
                None => 0,
            }
        } else if hhea_table.ascender == 0 && os2_table.is_some() {
            match &os2_table {
                Some(t) => if t.typographic_ascender != 0 {
                    t.typographic_ascender
                } else {
                    t.windows_ascender
                },
                None => 0,
            }
        } else {
            hhea_table.ascender
        };
        let descender = if use_typo {
            match &os2_table {
                Some(t) => t.typographic_descender,
                None => 0,
            }
        } else if hhea_table.descender == 0 && os2_table.is_some() {
            match &os2_table {
                Some(t) => if t.typographic_descender != 0 {
                    t.typographic_descender
                } else {
                    t.windows_descender
                },
                None => 0,
            }
        } else {
            hhea_table.descender
        };
        let line_gap = if use_typo {
            match &os2_table {
                Some(t) => t.typographic_line_gap,
                None => 0,
            }
        } else if (hhea_table.ascender == 0 || hhea_table.descender == 0) && os2_table.is_some() {
            match &os2_table {
                Some(t) => if t.typographic_ascender != 0 || t.typographic_descender != 0 {
                    t.typographic_line_gap
                } else {
                    0
                },
                None => 0,
            }
        } else {
            hhea_table.line_gap
        };
        let height = wrap_sub16(ascender, descender);
        let style = match &os2_table {
            Some(t) => t.style,
            None => Style::Normal,
        };
        let parser = TTFParser {
            is_bold: match &os2_table {
                Some(t) => t.is_bold,
                None => false,
            },
            is_italic: os2_table.is_some() && style == Style::Italic,
            is_monospaced: monospaced,
            is_oblique: os2_table.is_some() && style == Style::Oblique,
            is_regular: os2_table.is_some() && style == Style::Normal,
            is_variable,
            ascender,
            descender,
            height,
            line_gap,
            typographic_ascender: match &os2_table {
                Some(t) => Some(t.typographic_ascender),
                None => None,
            },
            typographic_descender: match &os2_table {
                Some(t) => Some(t.typographic_descender),
                None => None,
            },
            typographic_line_gap: match &os2_table {
                Some(t) => Some(t.typographic_line_gap),
                None => None,
            },
            vertical_ascender: match &vhea_table {
                Some(t) => Some(t.ascender),
                None => None,
            },
            vertical_descender: match &vhea_table {
                Some(t) => Some(t.descender),
                None => None,
            },
            vertical_height: match &vhea_table {
                Some(t) => Some(wrap_sub16(t.ascender, t.descender)),
                None => None,
            },
            vertical_line_gap: match &vhea_table {
                Some(t) => Some(t.line_gap),
                None => None,
            },
            units_per_em: head_table.units_per_em,
            x_height: match &os2_table {
                Some(t) => t.x_height,
                None => None,
            },
            capital_height: match &os2_table {
                Some(t) => t.capital_height,
                None => None,
            },
            permissions: match &os2_table {
                Some(t) => t.permissions,
                None => Permissions::Malformed,
            },
            is_subsetting_allowed: match &os2_table {
                Some(t) => t.is_subsetting_allowed,
                None => false,
            },
            is_bitmap_embedding_allowed: match &os2_table {
                Some(t) => t.is_bitmap_embedding_allowed,
                None => false,
            },
            number_of_glyphs: maxp_table.number_of_glyphs,
            superscript_metrics: match &os2_table {
                Some(t) => Some(t.superscript_metrics),
                None => None,
            },
            tables: Tables {
                head: head_table,
                hhea: hhea_table,
                maxp: maxp_table,
                os2: os2_table,
                name: name_table,
            },
        };
        Ok(parser)
    }

    /// A bounding box large enough to enclose any glyph from the face.
    pub fn global_bounding_box(&self) -> (r: Rect)
        ensures
            r == self.tables.head.global_bbox,
    {
        self.tables.head.global_bbox
    }

    /// The decoded tables behind this metadata.
    pub fn tables(&self) -> (r: &Tables)
        ensures
            r == self.tables,
    {
        &self.tables
    }

    /// The decoded name records, in table order.  An absent or malformed
    /// `name` table yields the empty list, never a failure.
    pub fn names(&self) -> (r: &[name::NameRecord])
        ensures
            name::spec_views(r@) == spec_names(*self),
    {
        match &self.tables.name {
            Some(t) => t.names.as_slice(),
            None => {
                let r: &[name::NameRecord] = &[];
                proof {
                    assert(name::spec_views(r@) =~= Seq::<name::NameRecordView>::empty());
                }
                r
            },
        }
    }
}


/// Law: any `head` table that decodes keeps `units_per_em` within
/// 16..=16384, and any `maxp` table that decodes has a non-zero glyph
/// count — a face outside those invariants fails the decode instead of
/// carrying a default.
pub proof fn lemma_required_ranges(hb: Seq<u8>, mb: Seq<u8>)
    ensures
        spec_parse_head(hb) matches Some(h) ==> 16 <= h.units_per_em <= 16384,
        spec_parse_maxp(mb) matches Some(t) ==> t.number_of_glyphs > 0,
{
}

/// Law: without an OS/2 table the aggregation rules degrade to the
/// documented defaults: Malformed permissions, no bold mark, no typographic
/// ascender and no x height.
pub proof fn lemma_os2_absent_defaults(p: TTFParser, m: Map<int, Seq<u8>>)
    requires
        spec_metadata_ok(p, m),
        !m.contains_key(OS2_TAG as int),
    ensures
        p.permissions == Permissions::Malformed,
        p.is_bold == false,
        p.typographic_ascender is None,
        p.x_height is None,
{
}

/// Law: below OS/2 version 4 the oblique selection bit is ignored, so no
/// face aggregated from such a table — or from no OS/2 table at all — is
/// oblique, whatever the underlying bytes hold.
pub proof fn lemma_oblique_needs_version4(p: TTFParser, m: Map<int, Seq<u8>>)
    requires
        spec_metadata_ok(p, m),
        match spec_table(m, OS2_TAG as int) {
            Some(b) => be_u16_at(b, 0) < 4,
            None => true,
        },
    ensures
        !p.is_oblique,
{
}

/// Law: decoding is a pure function of its input: two metadata values that
/// both satisfy the decode contract for the same table directory agree on
/// every field.
pub proof fn lemma_decode_deterministic(p1: TTFParser, p2: TTFParser, m: Map<int, Seq<u8>>)
    requires
        spec_metadata_ok(p1, m),
        spec_metadata_ok(p2, m),
    ensures
        p1.is_bold == p2.is_bold,
        p1.is_italic == p2.is_italic,
        p1.is_monospaced == p2.is_monospaced,
        p1.is_oblique == p2.is_oblique,
        p1.is_regular == p2.is_regular,
        p1.is_variable == p2.is_variable,
        p1.ascender == p2.ascender,
        p1.descender == p2.descender,
        p1.height == p2.height,
        p1.line_gap == p2.line_gap,
        p1.typographic_ascender == p2.typographic_ascender,
        p1.typographic_descender == p2.typographic_descender,
        p1.typographic_line_gap == p2.typographic_line_gap,
        p1.vertical_ascender == p2.vertical_ascender,
        p1.vertical_descender == p2.vertical_descender,
        p1.vertical_height == p2.vertical_height,
        p1.vertical_line_gap == p2.vertical_line_gap,
        p1.units_per_em == p2.units_per_em,
        p1.x_height == p2.x_height,
        p1.capital_height == p2.capital_height,
        p1.permissions == p2.permissions,
        p1.is_subsetting_allowed == p2.is_subsetting_allowed,
        p1.is_bitmap_embedding_allowed == p2.is_bitmap_embedding_allowed,
        p1.number_of_glyphs == p2.number_of_glyphs,
        p1.superscript_metrics == p2.superscript_metrics,
        p1.tables.head == p2.tables.head,
        p1.tables.hhea == p2.tables.hhea,
        p1.tables.maxp == p2.tables.maxp,
        p1.tables.os2 == p2.tables.os2,
        match (p1.tables.name, p2.tables.name) {
            (Some(a), Some(b)) => a@ == b@,
            (None, None) => true,
            _ => false,
        },
{
}

} // verus!
