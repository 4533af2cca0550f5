//! Big-endian readers for the packed integer fields of font tables.

use vstd::prelude::*;

verus! {

/// The big-endian unsigned 16-bit value stored at offset `i`.
pub open spec fn be_u16_at(b: Seq<u8>, i: int) -> int {
    b[i] * 256 + b[i + 1]
}

/// The big-endian signed 16-bit (two's complement) value stored at offset `i`.
pub open spec fn be_i16_at(b: Seq<u8>, i: int) -> int {
    if be_u16_at(b, i) >= 32768 {
        be_u16_at(b, i) - 65536
    } else {
        be_u16_at(b, i)
    }
}

/// The big-endian unsigned 32-bit value stored at offset `i`.
pub open spec fn be_u32_at(b: Seq<u8>, i: int) -> int {
    b[i] * 0x1000000 + b[i + 1] * 0x10000 + b[i + 2] * 0x100 + b[i + 3]
}

pub fn read_u16(b: &Vec<u8>, i: usize) -> (r: u16)
    requires
        i + 2 <= b.len(),
    ensures
        r == be_u16_at(b@, i as int),
{
    (b[i] as u16) * 256 + (b[i + 1] as u16)
}

pub fn read_i16(b: &Vec<u8>, i: usize) -> (r: i16)
    requires
        i + 2 <= b.len(),
    ensures
        r == be_i16_at(b@, i as int),
{
    let u = read_u16(b, i);
    if u < 32768 {
        u as i16
    } else {
        let d: u16 = 65535 - u;
        -(d as i16) - 1
    }
}

/// Copies the bytes of the half-open range `start..end` out of a buffer.
pub fn copy_range(b: &Vec<u8>, start: usize, end: usize) -> (r: Vec<u8>)
    requires
        start <= end <= b.len(),
    ensures
        r@ == b@.subrange(start as int, end as int),
{
    let mut out: Vec<u8> = Vec::new();
    let mut i: usize = start;
    while i < end
        invariant
            start <= i <= end <= b.len(),
            out@.len() == i - start,
            forall|k: int| 0 <= k < out@.len() ==> out@[k] == b@[start + k],
        decreases end - i,
    {
        out.push(b[i]);
        i += 1;
    }
    proof {
        assert(out@ =~= b@.subrange(start as int, end as int));
    }
    out
}

pub fn read_u32(b: &Vec<u8>, i: usize) -> (r: u32)
    requires
        i + 4 <= b.len(),
    ensures
        r == be_u32_at(b@, i as int),
{
    (b[i] as u32) * 0x1000000 + (b[i + 1] as u32) * 0x10000 + (b[i + 2] as u32) * 0x100 + (
    b[i + 3] as u32)
}

} // verus!
