//! The maximum profile (`maxp`) table.

use vstd::prelude::*;

use crate::bytes::{be_u16_at, be_u32_at, read_u16, read_u32};
use crate::FontError;

verus! {

/// A decoded maximum profile table.
#[derive(Clone, Copy, Debug, PartialEq, Eq, Structural)]
pub struct Table {
    /// The total number of glyphs in the face.  Never zero.
    pub number_of_glyphs: u16,
}

/// The decode of a `maxp` table slice: `None` when the slice is shorter than
/// six bytes, when the version is neither 0.5 nor 1.0, or when the glyph
/// count is zero.  A zero glyph count marks a malformed face and must
/// propagate as a hard failure, never as a default.
pub open spec fn spec_parse_maxp(d: Seq<u8>) -> Option<Table> {
    if d.len() < 6 {
        None
    } else if be_u32_at(d, 0) != 0x00005000 && be_u32_at(d, 0) != 0x00010000 {
        None
    } else if be_u16_at(d, 4) == 0 {
        None
    } else {
        Some(Table { number_of_glyphs: be_u16_at(d, 4) as u16 })
    }
}

impl Table {
    /// Decodes a `maxp` table from its raw slice.  Fail-fast: every failure,
    /// a zero glyph count included, is a `MalformedRequiredField`.
    pub fn new(data: &Vec<u8>) -> (r: Result<Table, FontError>)
        ensures
            match r {
                Ok(t) => spec_parse_maxp(data@) == Some(t) && t.number_of_glyphs > 0,
                Err(e) => spec_parse_maxp(data@) is None && e == FontError::MalformedRequiredField,
            },
    {
        if data.len() < 6 {
            return Err(FontError::MalformedRequiredField);
        }
        let version = read_u32(data, 0);
        if version != 0x00005000 && version != 0x00010000 {
            return Err(FontError::MalformedRequiredField);
        }
        let number_of_glyphs = read_u16(data, 4);
        if number_of_glyphs == 0 {
            return Err(FontError::MalformedRequiredField);
        }
        Ok(Table { number_of_glyphs })
    }
}

} // verus!
