//! Decoding of name-record text.
//!
//! A Unicode-style record stores big-endian UTF-16 code units; a legacy
//! record stores bytes read as UTF-8.  Either way an undecodable record
//! substitutes the empty string — a record never panics and never aborts
//! the surrounding parse.

use vstd::prelude::*;

use crate::bytes::{be_u16_at, read_u16};
use vstd::utf8::{
    encode_utf8, encode_utf8_decode_utf8, encode_utf8_valid_utf8, is_ascii_chars,
    is_ascii_chars_encode_utf8,
};

verus! {

/// The big-endian 16-bit code units of a byte sequence; a trailing odd byte
/// is ignored.
pub open spec fn spec_utf16_units(b: Seq<u8>) -> Seq<u16> {
    Seq::new((b.len() / 2) as nat, |j: int| be_u16_at(b, 2 * j) as u16)
}

/// UTF-16 decoding of a code-unit sequence: a unit outside the surrogate
/// range is a character of its own, a high surrogate followed by a low one
/// forms a supplementary character, and anything else fails the whole
/// sequence.
pub open spec fn spec_utf16_chars(units: Seq<u16>) -> Option<Seq<char>>
    decreases units.len(),
{
    if units.len() == 0 {
        Some(Seq::<char>::empty())
    } else if units[0] < 0xD800 || units[0] >= 0xE000 {
        match spec_utf16_chars(units.skip(1)) {
            Some(rest) => Some(seq![(units[0] as u32) as char] + rest),
            None => None,
        }
    } else if units[0] < 0xDC00 && units.len() >= 2 && 0xDC00 <= units[1] && units[1] < 0xE000 {
        match spec_utf16_chars(units.skip(2)) {
            Some(rest) => Some(
                seq![
                    ((0x10000 + (units[0] - 0xD800) * 0x400 + (units[1] - 0xDC00)) as u32) as char,
                ] + rest,
            ),
            None => None,
        }
    } else {
        None
    }
}

/// The text of one name record: UTF-16 for a Unicode-style record, UTF-8
/// for a legacy one, and the empty string when the bytes do not decode.
pub open spec fn spec_name_text(b: Seq<u8>, unicode: bool) -> Seq<char> {
    if unicode {
        match spec_utf16_chars(spec_utf16_units(b)) {
            Some(s) => s,
            None => Seq::<char>::empty(),
        }
    } else {
        if vstd::utf8::valid_utf8(b) {
            vstd::utf8::decode_utf8(b)
        } else {
            Seq::<char>::empty()
        }
    }
}

/// Relies on `core::str::from_utf8`: succeeds exactly on valid UTF-8 and
/// yields the characters that the bytes encode.
#[verifier::external_body]
fn utf8_to_string(bytes: &Vec<u8>) -> (r: Option<String>)
    ensures
        match r {
            Some(s) => vstd::utf8::valid_utf8(bytes@) && s@ == vstd::utf8::decode_utf8(bytes@),
            None => !vstd::utf8::valid_utf8(bytes@),
        },
{
    core::str::from_utf8(bytes.as_slice()).ok().map(|s| s.to_string())
}

/// Relies on `char::from_u32`: `Some` exactly on Unicode scalar values, and
/// then the character with that value.
#[verifier::external_body]
fn char_from_u32(c: u32) -> (r: Option<char>)
    ensures
        r is Some <==> vstd::utf8::is_scalar(c),
        r matches Some(ch) ==> ch == c as char,
{
    char::from_u32(c)
}

/// Relies on `String::from_iter` (via `collect`): builds the string of
/// exactly these characters, in order.
#[verifier::external_body]
fn chars_to_string(chars: &Vec<char>) -> (r: String)
    ensures
        r@ == chars@,
{
    chars.iter().collect()
}

/// Prepends a prefix to every sequence a decode may still produce; `None`
/// stays `None`.
pub open spec fn spec_prepend(p: Seq<char>, o: Option<Seq<char>>) -> Option<Seq<char>> {
    match o {
        Some(r) => Some(p + r),
        None => None,
    }
}

fn utf16_units(b: &Vec<u8>) -> (r: Vec<u16>)
    ensures
        r@ == spec_utf16_units(b@),
{
    let n = b.len() / 2;
    let mut units: Vec<u16> = Vec::new();
    let mut j: usize = 0;
    while j < n
        invariant
            n == b.len() / 2,
            j <= n,
            units@.len() == j,
            forall|k: int| 0 <= k < j ==> units@[k] == spec_utf16_units(b@)[k],
        decreases n - j,
    {
        units.push(read_u16(b, 2 * j));
        j += 1;
    }
    proof {
        assert(units@ =~= spec_utf16_units(b@));
    }
    units
}

fn utf16_chars(units: &Vec<u16>) -> (r: Option<Vec<char>>)
    ensures
        match r {
            Some(v) => spec_utf16_chars(units@) == Some(v@),
            None => spec_utf16_chars(units@) is None,
        },
{
    let n = units.len();
    let mut out: Vec<char> = Vec::new();
    let mut i: usize = 0;
    proof {
        assert(units@.skip(0) =~= units@);
        lemma_prepend_empty(spec_utf16_chars(units@));
    }
    while i < n
        invariant
            n == units.len(),
            i <= n,
            spec_utf16_chars(units@) == spec_prepend(out@, spec_utf16_chars(units@.skip(i as int))),
        decreases n - i,
    {
        let ghost tail = units@.skip(i as int);
        proof {
            assert(tail.len() == n - i);
            assert(tail[0] == units@[i as int]);
        }
        let u = units[i];
        if u < 0xD800 || u >= 0xE000 {
            let c = match char_from_u32(u as u32) {
                Some(c) => c,
                None => {
                    proof {
                        assert(vstd::utf8::is_scalar(u as u32));
                    }
                    return None;  // unreachable: the unit is a scalar value
                },
            };
            proof {
                assert(units@.skip(i as int).skip(1) =~= units@.skip(i + 1));
                assert(spec_utf16_chars(tail) == spec_prepend(
                    seq![c],
                    spec_utf16_chars(units@.skip(i + 1)),
                ));
                lemma_prepend_assoc(out@, seq![c], spec_utf16_chars(units@.skip(i + 1)));
                assert(out@.push(c) =~= out@ + seq![c]);
            }
            out.push(c);
            i += 1;
        } else if u < 0xDC00 && i + 1 < n && 0xDC00 <= units[i + 1] && units[i + 1] < 0xE000 {
            proof {
                assert(tail.len() >= 2);
                assert(tail[1] == units@[i + 1]);
            }
            let lo = units[i + 1];
            let cp: u32 = 0x10000 + (u as u32 - 0xD800) * 0x400 + (lo as u32 - 0xDC00);
            let c = match char_from_u32(cp) {
                Some(c) => c,
                None => {
                    proof {
                        assert(vstd::utf8::is_scalar(cp));
                    }
                    return None;  // unreachable: the code point is supplementary
                },
            };
            proof {
                assert(units@.skip(i as int).skip(2) =~= units@.skip(i + 2));
                assert(spec_utf16_chars(tail) == spec_prepend(
                    seq![c],
                    spec_utf16_chars(units@.skip(i + 2)),
                ));
                lemma_prepend_assoc(out@, seq![c], spec_utf16_chars(units@.skip(i + 2)));
                assert(out@.push(c) =~= out@ + seq![c]);
            }
            out.push(c);
            i += 2;
        } else {
            proof {
                assert(spec_utf16_chars(tail) is None);
            }
            return None;
        }
    }
    proof {
        assert(units@.skip(n as int) =~= Seq::<u16>::empty());
        assert(spec_utf16_chars(units@) == Some(out@));
    }
    Some(out)
}

proof fn lemma_prepend_empty(o: Option<Seq<char>>)
    ensures
        spec_prepend(Seq::<char>::empty(), o) == o,
{
    match o {
        Some(r) => {
            assert(Seq::<char>::empty() + r =~= r);
        },
        None => {},
    }
}

proof fn lemma_prepend_assoc(p: Seq<char>, q: Seq<char>, o: Option<Seq<char>>)
    ensures
        spec_prepend(p + q, o) == spec_prepend(p, spec_prepend(q, o)),
{
    match o {
        Some(r) => {
            assert((p + q) + r =~= p + (q + r));
        },
        None => {},
    }
}

/// Decodes the raw bytes of one name record into text: big-endian UTF-16
/// for a Unicode-style record, UTF-8 otherwise, with the empty string
/// substituted whenever the bytes do not decode.
pub fn decode_name_text(bytes: &Vec<u8>, unicode: bool) -> (r: String)
    ensures
        r@ == spec_name_text(bytes@, unicode),
{
    if unicode {
        let units = utf16_units(bytes);
        match utf16_chars(&units) {
            Some(chars) => chars_to_string(&chars),
            None => String::new(),
        }
    } else {
        match utf8_to_string(bytes) {
            Some(s) => s,
            None => String::new(),
        }
    }
}


/// Law: name-record text decoding is encoding-correct on both encodings:
/// the Unicode-style bytes 00 41 00 42 and the legacy bytes 41 42 each
/// decode to the characters "AB".
pub proof fn lemma_name_text_encoding_correct()
    ensures
        spec_name_text(seq![0x00u8, 0x41u8, 0x00u8, 0x42u8], true) == seq!['A', 'B'],
        spec_name_text(seq![0x41u8, 0x42u8], false) == seq!['A', 'B'],
{
    let chars = seq!['A', 'B'];
    vstd::utf8::char_u32_cast('A', 0x41);
    vstd::utf8::char_u32_cast('B', 0x42);
    let ub = seq![0x00u8, 0x41u8, 0x00u8, 0x42u8];
    assert(spec_utf16_units(ub) =~= seq![0x41u16, 0x42u16]);
    assert(seq![0x41u16, 0x42u16].skip(1) =~= seq![0x42u16]);
    assert(seq![0x42u16].skip(1) =~= Seq::<u16>::empty());
    assert(spec_utf16_chars(Seq::<u16>::empty()) == Some(Seq::<char>::empty()));
    assert(spec_utf16_chars(seq![0x42u16]) == Some(seq!['B'] + Seq::<char>::empty()));
    assert(seq!['B'] + Seq::<char>::empty() =~= seq!['B']);
    assert(spec_utf16_chars(seq![0x41u16, 0x42u16]) == Some(seq!['A'] + seq!['B']));
    assert(seq!['A'] + seq!['B'] =~= chars);
    let ab = seq![0x41u8, 0x42u8];
    assert(is_ascii_chars(chars));
    is_ascii_chars_encode_utf8(chars);
    assert(encode_utf8(chars) =~= ab);
    encode_utf8_valid_utf8(chars);
    encode_utf8_decode_utf8(chars);
}

} // verus!
