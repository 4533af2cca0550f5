//! The `post`-table and vertical-metrics collaborators.
//!
//! The aggregator needs two small facts from outside the core tables: the
//! monospace flag of the `post` table and the ascender, descender and line
//! gap of the `vhea` table.  Both decode from a fixed layout; a malformed
//! table degrades to `None` and never aborts the face decode.

use vstd::prelude::*;

use crate::bytes::{be_i16_at, be_u16_at, be_u32_at, read_i16, read_u16, read_u32};

verus! {

/// The decoded vertical header (`vhea`) metrics.
#[derive(Clone, Copy, Debug, PartialEq, Eq, Structural)]
pub struct VheaTable {
    /// Vertical face ascender.
    pub ascender: i16,
    /// Vertical face descender.
    pub descender: i16,
    /// Vertical face line gap.
    pub line_gap: i16,
}

/// The monospace flag of a `post` table slice: `None` when the slice is
/// shorter than its 32-byte fixed layout, has an unknown version, or (for
/// version 2.0) truncates its glyph-name index array; else whether the
/// fixed-pitch field is non-zero.
pub open spec fn spec_post_monospaced(d: Seq<u8>) -> Option<bool> {
    if d.len() < 32 {
        None
    } else if be_u32_at(d, 0) != 0x00010000 && be_u32_at(d, 0) != 0x00020000 && be_u32_at(d, 0)
        != 0x00025000 && be_u32_at(d, 0) != 0x00030000 && be_u32_at(d, 0) != 0x00040000 {
        None
    } else if be_u32_at(d, 0) == 0x00020000 && (d.len() < 34 || 34 + 2 * be_u16_at(d, 32)
        > d.len()) {
        None
    } else {
        Some(be_u32_at(d, 12) != 0)
    }
}

/// Decodes the monospace flag of a `post` table.
pub fn post_monospaced(data: &Vec<u8>) -> (r: Option<bool>)
    ensures
        r == spec_post_monospaced(data@),
{
    if data.len() < 32 {
        return None;
    }
    let version = read_u32(data, 0);
    if version != 0x00010000 && version != 0x00020000 && version != 0x00025000 && version
        != 0x00030000 && version != 0x00040000 {
        return None;
    }
    if version == 0x00020000 {
        if data.len() < 34 {
            return None;
        }
        let index_count = read_u16(data, 32);
        if index_count as usize * 2 > data.len() - 34 {
            return None;
        }
    }
    Some(read_u32(data, 12) != 0)
}

/// The decode of a `vhea` table slice: `None` only when the slice is
/// shorter than the 36-byte fixed layout.
pub open spec fn spec_parse_vhea(d: Seq<u8>) -> Option<VheaTable> {
    if d.len() < 36 {
        None
    } else {
        Some(
            VheaTable {
                ascender: be_i16_at(d, 4) as i16,
                descender: be_i16_at(d, 6) as i16,
                line_gap: be_i16_at(d, 8) as i16,
            },
        )
    }
}

/// Decodes the vertical metrics of a `vhea` table.
pub fn parse_vhea(data: &Vec<u8>) -> (r: Option<VheaTable>)
    ensures
        r == spec_parse_vhea(data@),
{
    if data.len() < 36 {
        return None;
    }
    Some(
        VheaTable {
            ascender: read_i16(data, 4),
            descender: read_i16(data, 6),
            line_gap: read_i16(data, 8),
        },
    )
}

} // verus!
