//! The OS/2 and Windows metrics (`OS/2`) table.
//!
//! The table is versioned (0 to 5) and the version gates which fields are
//! valid: `x_height` and `capital_height` need version >= 2, the oblique
//! selection bit and the use-typographic-metrics bit need version >= 4.  An
//! absent or malformed table degrades to `None`; it never aborts a decode.

use vstd::prelude::*;

use crate::bytes::{be_i16_at, be_u16_at, read_i16, read_u16};
use crate::tables::{spec_weight, LineMetrics, Weight};

verus! {

/// A face style.
#[derive(Clone, Copy, Debug, PartialEq, Eq, Structural)]
pub enum Style {
    /// A face that is neither italic nor obliqued.
    Normal,
    /// A form that is generally cursive in nature.
    Italic,
    /// A typically-sloped version of the regular face.
    Oblique,
}

/// Face embedding permissions, decoded from the `fsType` bitfield.
/// `Malformed` is the explicit value for a bit pattern that matches none of
/// the four defined combinations; it is a decode outcome, not an error.
#[derive(Clone, Copy, Debug, PartialEq, Eq, Structural)]
pub enum Permissions {
    Installable,
    Restricted,
    PreviewAndPrint,
    Editable,
    Malformed,
}

/// A face width class, from the OS/2 `usWidthClass` field.
#[derive(Clone, Copy, Debug, PartialEq, Eq, Structural)]
pub enum Width {
    UltraCondensed,
    ExtraCondensed,
    Condensed,
    SemiCondensed,
    Normal,
    SemiExpanded,
    Expanded,
    ExtraExpanded,
    UltraExpanded,
}

/// Script metrics used by subscript and superscript.
#[derive(Clone, Copy, Debug, PartialEq, Eq, Structural)]
pub struct ScriptMetrics {
    /// Horizontal face size.
    pub x_size: i16,
    /// Vertical face size.
    pub y_size: i16,
    /// X offset.
    pub x_offset: i16,
    /// Y offset.
    pub y_offset: i16,
}

/// A decoded OS/2 table.
#[derive(Clone, Copy, Debug, PartialEq, Eq, Structural)]
pub struct Table {
    /// Weight class.
    pub weight: Weight,
    /// Width class.
    pub width: Width,
    /// Embedding permissions.
    pub permissions: Permissions,
    /// Whether face subsetting is allowed.
    pub is_subsetting_allowed: bool,
    /// Whether embedding of bitmaps is allowed.
    pub is_bitmap_embedding_allowed: bool,
    /// Subscript metrics.
    pub subscript_metrics: ScriptMetrics,
    /// Superscript metrics.
    pub superscript_metrics: ScriptMetrics,
    /// Strikeout metrics.
    pub strikeout_metrics: LineMetrics,
    /// Face style, from the selection bits.
    pub style: Style,
    /// Whether the face is marked as bold.
    pub is_bold: bool,
    /// Whether typographic metrics should be used.
    pub use_typographic_metrics: bool,
    /// Typographic ascender.
    pub typographic_ascender: i16,
    /// Typographic descender.
    pub typographic_descender: i16,
    /// Typographic line gap.
    pub typographic_line_gap: i16,
    /// Windows ascender.
    pub windows_ascender: i16,
    /// Windows descender (negated, so that it is a descender).
    pub windows_descender: i16,
    /// X height; `None` when the table version is < 2.
    pub x_height: Option<i16>,
    /// Capital height; `None` when the table version is < 2.
    pub capital_height: Option<i16>,
}

/// The fixed layout length demanded of each table version; 0 marks an
/// unsupported version, which fails the whole (optional) table.
pub open spec fn spec_os2_required_len(version: int) -> int {
    if version == 0 {
        78
    } else if version == 1 {
        86
    } else if version == 2 || version == 3 || version == 4 {
        96
    } else if version == 5 {
        100
    } else {
        0
    }
}

/// Whether an OS/2 slice has a supported version and enough bytes for it.
pub open spec fn spec_os2_well_formed(d: Seq<u8>) -> bool {
    d.len() >= 2 && spec_os2_required_len(be_u16_at(d, 0)) != 0 && d.len() >= spec_os2_required_len(
        be_u16_at(d, 0),
    )
}

/// The permission value for a raw `fsType` field.  Up to version 2 the
/// defined bits are not exclusive and the most permissive reading wins, so
/// every pattern maps to one of the four defined values.  From version 3 on
/// the four combinations are exclusive and any other pattern is `Malformed`.
pub open spec fn spec_os2_permissions(version: int, fs_type: int) -> Permissions {
    if version <= 2 {
        if fs_type % 16 == 0 {
            Permissions::Installable
        } else if (fs_type / 8) % 2 == 1 {
            Permissions::Editable
        } else if (fs_type / 4) % 2 == 1 {
            Permissions::PreviewAndPrint
        } else {
            Permissions::Restricted
        }
    } else {
        if fs_type % 16 == 0 {
            Permissions::Installable
        } else if fs_type % 16 == 2 {
            Permissions::Restricted
        } else if fs_type % 16 == 4 {
            Permissions::PreviewAndPrint
        } else if fs_type % 16 == 8 {
            Permissions::Editable
        } else {
            Permissions::Malformed
        }
    }
}

/// The width class for a raw `usWidthClass` value.  Total: an unlisted value
/// decodes to `Normal`, never to a failure.
pub open spec fn spec_os2_width(n: int) -> Width {
    if n == 1 {
        Width::UltraCondensed
    } else if n == 2 {
        Width::ExtraCondensed
    } else if n == 3 {
        Width::Condensed
    } else if n == 4 {
        Width::SemiCondensed
    } else if n == 5 {
        Width::Normal
    } else if n == 6 {
        Width::SemiExpanded
    } else if n == 7 {
        Width::Expanded
    } else if n == 8 {
        Width::ExtraExpanded
    } else if n == 9 {
        Width::UltraExpanded
    } else {
        Width::Normal
    }
}

/// The style for the selection bits: italic (bit 0) wins, then oblique
/// (bit 9) when the version admits it, else normal.  The oblique bit is
/// ignored entirely below version 4.
pub open spec fn spec_os2_style(version: int, fs_selection: int) -> Style {
    if fs_selection % 2 == 1 {
        Style::Italic
    } else if version >= 4 && (fs_selection / 512) % 2 == 1 {
        Style::Oblique
    } else {
        Style::Normal
    }
}

/// The decode of an OS/2 table slice.
pub open spec fn spec_parse_os2(d: Seq<u8>) -> Option<Table> {
    if !spec_os2_well_formed(d) {
        None
    } else {
        let version = be_u16_at(d, 0);
        let fs_type = be_u16_at(d, 8);
        let fs_selection = be_u16_at(d, 62);
        Some(
            Table {
                weight: spec_weight(be_u16_at(d, 4)),
                width: spec_os2_width(be_u16_at(d, 6)),
                permissions: spec_os2_permissions(version, fs_type),
                is_subsetting_allowed: version <= 1 || (fs_type / 256) % 2 == 0,
                is_bitmap_embedding_allowed: version <= 1 || (fs_type / 512) % 2 == 0,
                subscript_metrics: ScriptMetrics {
                    x_size: be_i16_at(d, 10) as i16,
                    y_size: be_i16_at(d, 12) as i16,
                    x_offset: be_i16_at(d, 14) as i16,
                    y_offset: be_i16_at(d, 16) as i16,
                },
                superscript_metrics: ScriptMetrics {
                    x_size: be_i16_at(d, 18) as i16,
                    y_size: be_i16_at(d, 20) as i16,
                    x_offset: be_i16_at(d, 22) as i16,
                    y_offset: be_i16_at(d, 24) as i16,
                },
                strikeout_metrics: LineMetrics {
                    thickness: be_i16_at(d, 26) as i16,
                    position: be_i16_at(d, 28) as i16,
                },
                style: spec_os2_style(version, fs_selection),
                is_bold: (fs_selection / 32) % 2 == 1,
                use_typographic_metrics: version >= 4 && (fs_selection / 128) % 2 == 1,
                typographic_ascender: be_i16_at(d, 68) as i16,
                typographic_descender: be_i16_at(d, 70) as i16,
                typographic_line_gap: be_i16_at(d, 72) as i16,
                windows_ascender: be_i16_at(d, 74) as i16,
                windows_descender: spec_negated_i16(be_i16_at(d, 76)) as i16,
                x_height: if version >= 2 {
                    Some(be_i16_at(d, 86) as i16)
                } else {
                    None
                },
                capital_height: if version >= 2 {
                    Some(be_i16_at(d, 88) as i16)
                } else {
                    None
                },
            },
        )
    }
}

/// Negation that stays inside the signed 16-bit range: the one value without
/// a negation, -32768, is carried through unchanged.
pub open spec fn spec_negated_i16(v: int) -> int {
    if v == -32768 {
        v
    } else {
        -v
    }
}

impl Table {
    /// Decodes an optional OS/2 table.  `None` in, or an unsupported version
    /// or truncated slice, degrades to `None`; it never aborts a decode.
    pub fn new(data: Option<&Vec<u8>>) -> (r: Option<Table>)
        ensures
            match data {
                Some(d) => r == spec_parse_os2(d@),
                None => r is None,
            },
    {
        let d = match data {
            Some(d) => d,
            None => {
                return None;
            },
        };
        if d.len() < 2 {
            return None;
        }
        let version = read_u16(d, 0);
        let required_len: usize = if version == 0 {
            78
        } else if version == 1 {
            86
        } else if version == 2 || version == 3 || version == 4 {
            96
        } else if version == 5 {
            100
        } else {
            return None;
        };
        if d.len() < required_len {
            return None;
        }
        let fs_type = read_u16(d, 8);
        let fs_selection = read_u16(d, 62);
        let permissions = if version <= 2 {
            if fs_type % 16 == 0 {
                Permissions::Installable
            } else if (fs_type / 8) % 2 == 1 {
                Permissions::Editable
            } else if (fs_type / 4) % 2 == 1 {
                Permissions::PreviewAndPrint
            } else {
                Permissions::Restricted
            }
        } else {
            if fs_type % 16 == 0 {
                Permissions::Installable
            } else if fs_type % 16 == 2 {
                Permissions::Restricted
            } else if fs_type % 16 == 4 {
                Permissions::PreviewAndPrint
            } else if fs_type % 16 == 8 {
                Permissions::Editable
            } else {
                Permissions::Malformed
            }
        };
        let style = if fs_selection % 2 == 1 {
            Style::Italic
        } else if version >= 4 && (fs_selection / 512) % 2 == 1 {
            Style::Oblique
        } else {
            Style::Normal
        };
        let weight_raw = read_u16(d, 4);
        let weight = if weight_raw == 100 {
            Weight::Thin
        } else if weight_raw == 200 {
            Weight::ExtraLight
        } else if weight_raw == 300 {
            Weight::Light
        } else if weight_raw == 400 {
            Weight::Normal
        } else if weight_raw == 500 {
            Weight::Medium
        } else if weight_raw == 600 {
            Weight::SemiBold
        } else if weight_raw == 700 {
            Weight::Bold
        } else if weight_raw == 800 {
            Weight::ExtraBold
        } else if weight_raw == 900 {
            Weight::Black
        } else {
            Weight::Other(weight_raw)
        };
        let width_raw = read_u16(d, 6);
        let width = if width_raw == 1 {
            Width::UltraCondensed
        } else if width_raw == 2 {
            Width::ExtraCondensed
        } else if width_raw == 3 {
            Width::Condensed
        } else if width_raw == 4 {
            Width::SemiCondensed
        } else if width_raw == 5 {
            Width::Normal
        } else if width_raw == 6 {
            Width::SemiExpanded
        } else if width_raw == 7 {
            Width::Expanded
        } else if width_raw == 8 {
            Width::ExtraExpanded
        } else if width_raw == 9 {
            Width::UltraExpanded
        } else {
            Width::Normal
        };
        let win_descent_raw = read_i16(d, 76);
        let windows_descender = if win_descent_raw == i16::MIN {
            win_descent_raw
        } else {
            -win_descent_raw
        };
        Some(
            Table {
                weight,
                width,
                permissions,
                is_subsetting_allowed: version <= 1 || (fs_type / 256) % 2 == 0,
                is_bitmap_embedding_allowed: version <= 1 || (fs_type / 512) % 2 == 0,
                subscript_metrics: ScriptMetrics {
                    x_size: read_i16(d, 10),
                    y_size: read_i16(d, 12),
                    x_offset: read_i16(d, 14),
                    y_offset: read_i16(d, 16),
                },
                superscript_metrics: ScriptMetrics {
                    x_size: read_i16(d, 18),
                    y_size: read_i16(d, 20),
                    x_offset: read_i16(d, 22),
                    y_offset: read_i16(d, 24),
                },
                strikeout_metrics: LineMetrics {
                    thickness: read_i16(d, 26),
                    position: read_i16(d, 28),
                },
                style,
                is_bold: (fs_selection / 32) % 2 == 1,
                use_typographic_metrics: version >= 4 && (fs_selection / 128) % 2 == 1,
                typographic_ascender: read_i16(d, 68),
                typographic_descender: read_i16(d, 70),
                typographic_line_gap: read_i16(d, 72),
                windows_ascender: read_i16(d, 74),
                windows_descender,
                x_height: if version >= 2 {
                    Some(read_i16(d, 86))
                } else {
                    None
                },
                capital_height: if version >= 2 {
                    Some(read_i16(d, 88))
                } else {
                    None
                },
            },
        )
    }
}


/// Law: an OS/2 table of version below 2 decodes with no x height and no
/// capital height, whatever the underlying bytes hold.
pub proof fn lemma_low_version_no_heights(d: Seq<u8>)
    requires
        be_u16_at(d, 0) < 2,
    ensures
        spec_parse_os2(d) matches Some(t) ==> t.x_height is None && t.capital_height is None,
{
}

/// Law: from OS/2 version 3 on, a permission bit pattern outside the four
/// defined combinations decodes to Malformed — a decode outcome, not a
/// failure: the table, and with it the face, still decodes.
pub proof fn lemma_unknown_permission_bits(d: Seq<u8>)
    requires
        spec_os2_well_formed(d),
        be_u16_at(d, 0) >= 3,
        be_u16_at(d, 8) % 16 != 0,
        be_u16_at(d, 8) % 16 != 2,
        be_u16_at(d, 8) % 16 != 4,
        be_u16_at(d, 8) % 16 != 8,
    ensures
        spec_parse_os2(d) is Some,
        spec_parse_os2(d).unwrap().permissions == Permissions::Malformed,
{
}

} // verus!
