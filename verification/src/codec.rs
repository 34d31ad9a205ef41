//! Little-endian primitives and bounds-checked fetches over a message buffer.
//!
//! Every fetch states exactly which bytes it reads, so the per-operation
//! decoders can be proved never to underrun a well-formed message.

use vstd::prelude::*;

verus! {

use vstd::bytes::{
    spec_u32_from_le_bytes, spec_u32_to_le_bytes, spec_u64_from_le_bytes, spec_u64_to_le_bytes,
    u32_from_le_bytes, u32_to_le_bytes, u64_from_le_bytes, u64_to_le_bytes,
};
use vstd::slice::{slice_subrange, slice_to_vec};

/// The little-endian `u32` stored at byte offset `i` of `s`.
pub open spec fn le32_at(s: Seq<u8>, i: int) -> u32
    recommends
        0 <= i,
        i + 4 <= s.len(),
{
    spec_u32_from_le_bytes(s.subrange(i, i + 4))
}

/// The little-endian `u64` stored at byte offset `i` of `s`.
pub open spec fn le64_at(s: Seq<u8>, i: int) -> u64
    recommends
        0 <= i,
        i + 8 <= s.len(),
{
    spec_u64_from_le_bytes(s.subrange(i, i + 8))
}

/// Read the little-endian `u32` at byte offset `pos`.
pub fn read_u32(data: &Vec<u8>, pos: usize) -> (r: u32)
    requires
        pos + 4 <= data@.len(),
    ensures
        r == le32_at(data@, pos as int),
{
    // Binding the length pins it below usize::MAX for the offset arithmetic.
    let _len: usize = data.len();
    u32_from_le_bytes(slice_subrange(data.as_slice(), pos, pos + 4))
}

/// Read the little-endian `u64` at byte offset `pos`.
pub fn read_u64(data: &Vec<u8>, pos: usize) -> (r: u64)
    requires
        pos + 8 <= data@.len(),
    ensures
        r == le64_at(data@, pos as int),
{
    // Binding the length pins it below usize::MAX for the offset arithmetic.
    let _len: usize = data.len();
    u64_from_le_bytes(slice_subrange(data.as_slice(), pos, pos + 8))
}

/// Append the four little-endian bytes of `x`.
pub fn push_u32(v: &mut Vec<u8>, x: u32)
    ensures
        final(v)@ == old(v)@ + spec_u32_to_le_bytes(x),
{
    let mut b = u32_to_le_bytes(x);
    v.append(&mut b);
}

/// Append the eight little-endian bytes of `x`.
pub fn push_u64(v: &mut Vec<u8>, x: u64)
    ensures
        final(v)@ == old(v)@ + spec_u64_to_le_bytes(x),
{
    let mut b = u64_to_le_bytes(x);
    v.append(&mut b);
}

/// Offset of the first zero byte of `s` at or after `i`; `s.len()` when none.
pub open spec fn nul_at(s: Seq<u8>, i: int) -> int
    decreases s.len() - i,
{
    if i < 0 || i >= s.len() {
        s.len() as int
    } else if s[i] == 0 {
        i
    } else {
        nul_at(s, i + 1)
    }
}

/// `nul_at` lands on the first zero byte at or after `i`: it stays within
/// the buffer, points at a zero when one exists, and skips nothing.
pub proof fn lemma_nul_at(s: Seq<u8>, i: int)
    requires
        0 <= i <= s.len(),
    ensures
        i <= nul_at(s, i) <= s.len(),
        nul_at(s, i) < s.len() ==> s[nul_at(s, i)] == 0,
        forall|j: int| i <= j < nul_at(s, i) ==> s[j] != 0,
    decreases s.len() - i,
{
    if i < s.len() && s[i] != 0 {
        lemma_nul_at(s, i + 1);
    }
}

/// True when a zero-terminated name starts at offset `pos`.
pub open spec fn has_str(s: Seq<u8>, pos: int) -> bool {
    &&& 0 <= pos <= s.len()
    &&& nul_at(s, pos) < s.len()
}

/// The bytes of the name that starts at `pos`, without its terminator.
pub open spec fn str_bytes(s: Seq<u8>, pos: int) -> Seq<u8> {
    s.subrange(pos, nul_at(s, pos))
}

/// Offset of the first byte after the name at `pos` and its terminator.
pub open spec fn str_end(s: Seq<u8>, pos: int) -> int {
    nul_at(s, pos) + 1
}

/// Fetch the zero-terminated name that starts at `pos`, and the offset just
/// past its terminator; `None` when no zero byte follows `pos`.
pub fn fetch_str(data: &Vec<u8>, pos: usize) -> (r: Option<(Vec<u8>, usize)>)
    requires
        pos <= data@.len(),
    ensures
        has_str(data@, pos as int) ==> (r matches Some(p) && p.0@ == str_bytes(
            data@,
            pos as int,
        ) && p.1 == str_end(data@, pos as int) && p.1 <= data@.len()),
        !has_str(data@, pos as int) ==> r is None,
{
    proof {
        lemma_nul_at(data@, pos as int);
    }
    let mut j: usize = pos;
    while j < data.len() && data[j] != 0
        invariant
            pos <= j <= data@.len(),
            nul_at(data@, pos as int) == nul_at(data@, j as int),
        decreases data@.len() - j,
    {
        j = j + 1;
    }
    if j == data.len() {
        None
    } else {
        let name = slice_to_vec(slice_subrange(data.as_slice(), pos, j));
        Some((name, j + 1))
    }
}

/// Fetch every byte from `pos` to the end of the buffer.
pub fn fetch_data(data: &Vec<u8>, pos: usize) -> (r: Vec<u8>)
    requires
        pos <= data@.len(),
    ensures
        r@ == data@.subrange(pos as int, data@.len() as int),
{
    slice_to_vec(slice_subrange(data.as_slice(), pos, data.len()))
}

} // verus!
