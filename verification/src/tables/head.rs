//! The font header (`head`) table.

use vstd::prelude::*;

use crate::bytes::{be_i16_at, be_u16_at, read_i16, read_u16};
use crate::tables::Rect;
use crate::FontError;

verus! {

/// An index format used by the index-to-location (`loca`) table.
#[derive(Clone, Copy, Debug, PartialEq, Eq, Structural)]
pub enum IndexToLocationFormat {
    Short,
    Long,
}

/// A decoded font header table.
#[derive(Clone, Copy, Debug, PartialEq, Eq, Structural)]
pub struct Table {
    /// Units per EM.  Guaranteed to be in a 16..=16384 range.
    pub units_per_em: u16,
    /// A bounding box that encloses any glyph from the face.
    pub global_bbox: Rect,
    /// The index format used by the index-to-location table.
    pub index_to_location_format: IndexToLocationFormat,
}

/// The decode of a `head` table slice: `None` when the slice is shorter than
/// the 54-byte fixed layout, when `units_per_em` falls outside 16..=16384, or
/// when the location format field is neither 0 nor 1.
pub open spec fn spec_parse_head(d: Seq<u8>) -> Option<Table> {
    if d.len() < 54 {
        None
    } else if !(16 <= be_u16_at(d, 18) <= 16384) {
        None
    } else if be_u16_at(d, 50) != 0 && be_u16_at(d, 50) != 1 {
        None
    } else {
        Some(
            Table {
                units_per_em: be_u16_at(d, 18) as u16,
                global_bbox: Rect {
                    x_min: be_i16_at(d, 36) as i16,
                    y_min: be_i16_at(d, 38) as i16,
                    x_max: be_i16_at(d, 40) as i16,
                    y_max: be_i16_at(d, 42) as i16,
                },
                index_to_location_format: if be_u16_at(d, 50) == 0 {
                    IndexToLocationFormat::Short
                } else {
                    IndexToLocationFormat::Long
                },
            },
        )
    }
}

impl Table {
    /// Decodes a `head` table from its raw slice.  Fail-fast: every failure
    /// is a `MalformedRequiredField`, and success guarantees the
    /// `units_per_em` range invariant.
    pub fn new(data: &Vec<u8>) -> (r: Result<Table, FontError>)
        ensures
            match r {
                Ok(t) => spec_parse_head(data@) == Some(t) && 16 <= t.units_per_em <= 16384,
                Err(e) => spec_parse_head(data@) is None && e == FontError::MalformedRequiredField,
            },
    {
        if data.len() < 54 {
            return Err(FontError::MalformedRequiredField);
        }
        let units_per_em = read_u16(data, 18);
        if !(16 <= units_per_em && units_per_em <= 16384) {
            return Err(FontError::MalformedRequiredField);
        }
        let loca_format = read_u16(data, 50);
        if loca_format != 0 && loca_format != 1 {
            return Err(FontError::MalformedRequiredField);
        }
        Ok(
            Table {
                units_per_em,
                global_bbox: Rect {
                    x_min: read_i16(data, 36),
                    y_min: read_i16(data, 38),
                    x_max: read_i16(data, 40),
                    y_max: read_i16(data, 42),
                },
                index_to_location_format: if loca_format == 0 {
                    IndexToLocationFormat::Short
                } else {
                    IndexToLocationFormat::Long
                },
            },
        )
    }
}

} // verus!
