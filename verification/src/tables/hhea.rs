//! The horizontal header (`hhea`) table.

use vstd::prelude::*;

use crate::bytes::{be_i16_at, be_u16_at, read_i16, read_u16};
use crate::FontError;

verus! {

/// A decoded horizontal header table.
#[derive(Clone, Copy, Debug, PartialEq, Eq, Structural)]
pub struct Table {
    /// Face ascender.
    pub ascender: i16,
    /// Face descender.
    pub descender: i16,
    /// Face line gap.
    pub line_gap: i16,
    /// Number of metrics in the `hmtx` table.
    pub number_of_metrics: u16,
}

/// The decode of an `hhea` table slice: `None` only when the slice is
/// shorter than the 36-byte fixed layout.
pub open spec fn spec_parse_hhea(d: Seq<u8>) -> Option<Table> {
    if d.len() < 36 {
        None
    } else {
        Some(
            Table {
                ascender: be_i16_at(d, 4) as i16,
                descender: be_i16_at(d, 6) as i16,
                line_gap: be_i16_at(d, 8) as i16,
                number_of_metrics: be_u16_at(d, 34) as u16,
            },
        )
    }
}

impl Table {
    /// Decodes an `hhea` table from its raw slice.  Fail-fast: a truncated
    /// slice is a `MalformedRequiredField`.
    pub fn new(data: &Vec<u8>) -> (r: Result<Table, FontError>)
        ensures
            match r {
                Ok(t) => spec_parse_hhea(data@) == Some(t),
                Err(e) => spec_parse_hhea(data@) is None && e == FontError::MalformedRequiredField,
            },
    {
        if data.len() < 36 {
            return Err(FontError::MalformedRequiredField);
        }
        Ok(
            Table {
                ascender: read_i16(data, 4),
                descender: read_i16(data, 6),
                line_gap: read_i16(data, 8),
                number_of_metrics: read_u16(data, 34),
            },
        )
    }
}

} // verus!
