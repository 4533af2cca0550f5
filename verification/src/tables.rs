//! The decoded table records and the small shared value types.

use vstd::prelude::*;

pub mod head;
pub mod hhea;
pub mod maxp;
pub mod name;
pub mod os2;

verus! {

/// A rectangle that encloses every glyph of the face.
#[derive(Clone, Copy, Debug, PartialEq, Eq, Structural)]
pub struct Rect {
    pub x_min: i16,
    pub y_min: i16,
    pub x_max: i16,
    pub y_max: i16,
}

/// A horizontal line: the strikeout decoration of the OS/2 table.
#[derive(Clone, Copy, Debug, PartialEq, Eq, Structural)]
pub struct LineMetrics {
    /// Offset of the line from the baseline.
    pub position: i16,
    /// Thickness of the line.
    pub thickness: i16,
}

/// A face weight class: the nine named classes of the OS/2 `usWeightClass`
/// field, with every other value carried through unchanged.
#[derive(Clone, Copy, Debug, PartialEq, Eq, Structural)]
pub enum Weight {
    Thin,
    ExtraLight,
    Light,
    Normal,
    Medium,
    SemiBold,
    Bold,
    ExtraBold,
    Black,
    Other(u16),
}

/// The named weight class for a raw `usWeightClass` value.  Total: an
/// unlisted value decodes to `Other`, never to a failure.
pub open spec fn spec_weight(n: int) -> Weight {
    if n == 100 {
        Weight::Thin
    } else if n == 200 {
        Weight::ExtraLight
    } else if n == 300 {
        Weight::Light
    } else if n == 400 {
        Weight::Normal
    } else if n == 500 {
        Weight::Medium
    } else if n == 600 {
        Weight::SemiBold
    } else if n == 700 {
        Weight::Bold
    } else if n == 800 {
        Weight::ExtraBold
    } else if n == 900 {
        Weight::Black
    } else {
        Weight::Other(n as u16)
    }
}

/// The decoded tables of one face.  `head`, `hhea` and `maxp` are required;
/// `OS/2` and `name` degrade to `None` when absent or malformed.
#[derive(Clone, Debug, PartialEq)]
pub struct Tables {
    pub head: head::Table,
    pub hhea: hhea::Table,
    pub maxp: maxp::Table,
    pub os2: Option<os2::Table>,
    pub name: Option<name::Table>,
}

} // verus!
