//! The table-directory collaborator.
//!
//! Locating tables inside a font container is delegated to `ttf_parser`'s
//! raw-face directory.  Its binary-layout parsing is not restated here: the
//! directory of a buffer and face index is an opaque map from table tag
//! (packed big-endian, `head` as 0x68656164) to that table's raw bytes, and
//! the wrappers below are the trusted boundary around it.

use vstd::prelude::*;

use crate::bytes::{be_u32_at, read_u32};

verus! {

#[verifier::external_type_specification]
#[verifier::external_body]
pub struct ExRawFace<'a>(ttf_parser::RawFace<'a>);

/// Whether the directory parser's stream reads stay within the 32-bit range
/// it addresses on this buffer: the buffer itself fits well inside that
/// range, and a collection header does not declare a face count whose
/// 32-bit offset array would run past it.  Outside this range the release
/// parser fails the parse while a build with debug assertions would stop on
/// an internal assertion, so the trusted call is only made inside it;
/// callers reject everything outside it as an invalid container, which is
/// what the release parser itself reports there.
pub open spec fn spec_in_parse_range(data: Seq<u8>) -> bool {
    &&& data.len() <= 0xFF000000
    &&& !(data.len() >= 12 && data[0] == 0x74 && data[1] == 0x74 && data[2] == 0x63 && data[3]
        == 0x66 && 12 + 4 * be_u32_at(data, 8) > 0xFFFFFFFF)
}

/// Decides `spec_in_parse_range` for a buffer: a collection header (magic
/// `ttcf`) may declare at most (2^32 - 13) / 4 faces.
pub(crate) fn in_parse_range(data: &Vec<u8>) -> (r: bool)
    ensures
        r == spec_in_parse_range(data@),
{
    if data.len() > 0xFF000000 {
        return false;
    }
    if data.len() >= 12 && data[0] == 0x74 && data[1] == 0x74 && data[2] == 0x63 && data[3] == 0x66
    {
        let count = read_u32(data, 8);
        if count > 1073741820 {
            return false;
        }
    }
    true
}

/// The table directory that `ttf_parser::RawFace::parse` resolves for this
/// buffer and face index: `None` when the container is malformed or the face
/// index is out of range, else the map from packed table tag to table bytes.
pub uninterp spec fn directory_of(data: Seq<u8>, index: u32) -> Option<Map<int, Seq<u8>>>;

/// The tag-to-bytes contents of a resolved raw face.
pub uninterp spec fn face_tables(face: ttf_parser::RawFace) -> Map<int, Seq<u8>>;

/// Relies on `ttf_parser::RawFace::parse`: resolves the table directory of
/// face `index`, failing exactly on a malformed container (bad magic,
/// truncated or inconsistent directory) or an out-of-range face index.
/// The `requires` keeps clear of the parser's internal debug assertion on
/// stream offsets past the 32-bit range (a collection header declaring an
/// oversized face count): on such inputs the call is not made.
#[verifier::external_body]
pub(crate) fn parse_raw_face<'a>(data: &'a Vec<u8>, index: u32) -> (r: Option<ttf_parser::RawFace<'a>>)
    requires
        spec_in_parse_range(data@),
    ensures
        match r {
            Some(face) => directory_of(data@, index) == Some(face_tables(face)),
            None => directory_of(data@, index) is None,
        },
{
    ttf_parser::RawFace::parse(data.as_slice(), index).ok()
}

/// Relies on `ttf_parser::RawFace::table` (with `ttf_parser::Tag`): returns
/// the raw bytes of the table with the given packed tag, if the directory
/// lists one whose byte range lies inside the buffer.
#[verifier::external_body]
pub(crate) fn raw_table(face: &ttf_parser::RawFace<'_>, tag: u32) -> (r: Option<Vec<u8>>)
    ensures
        match r {
            Some(v) => face_tables(*face).contains_key(tag as int) && v@ == face_tables(*face)[
                tag as int
            ],
            None => !face_tables(*face).contains_key(tag as int),
        },
{
    face.table(ttf_parser::Tag(tag)).map(|s| s.to_vec())
}

/// The tag text that `ttf_parser` resolves for a Windows language id (the
/// language-tag lookup collaborator); unlisted ids resolve to the unknown
/// tag.
pub uninterp spec fn windows_language_tag(id: u16) -> Seq<char>;

/// Relies on `ttf_parser::name::Name::language` and the `Display` of
/// `ttf_parser::Language`: the printed language-and-region tag for a Windows
/// language id, a function of the id alone.
#[verifier::external_body]
pub(crate) fn windows_language_name(id: u16) -> (r: String)
    ensures
        r@ == windows_language_tag(id),
{
    let record = ttf_parser::name::Name {
        platform_id: ttf_parser::PlatformId::Windows,
        encoding_id: 0,
        language_id: id,
        name_id: 0,
        name: &[],
    };
    record.language().to_string()
}

} // verus!
