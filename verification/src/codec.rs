//! Byte-layout primitives of the argument codec.
//!
//! Two wire layouts are assembled from these pieces. The schema-tagged layout
//! writes a record field by field in declared order: fixed-width integers in
//! little-endian form, and variable-length byte strings or lists prefixed by a
//! four-byte little-endian length. The compact layout writes fixed-width
//! integers in little-endian form with no framing at all. Both are
//! byte-for-byte deterministic.

use vstd::bytes::spec_u128_to_le_bytes;
use vstd::bytes::spec_u16_from_le_bytes;
use vstd::bytes::spec_u16_to_le_bytes;
use vstd::bytes::spec_u32_from_le_bytes;
use vstd::bytes::spec_u32_to_le_bytes;
use vstd::bytes::spec_u64_to_le_bytes;
use vstd::bytes::u128_to_le_bytes;
use vstd::bytes::u16_from_le_bytes;
use vstd::bytes::u16_to_le_bytes;
use vstd::bytes::u32_from_le_bytes;
use vstd::bytes::u32_to_le_bytes;
use vstd::bytes::u64_to_le_bytes;
use vstd::prelude::*;
use vstd::slice::slice_subrange;

verus! {

/// Appends the two little-endian bytes of a 16-bit integer.
pub fn push_u16_le(out: &mut Vec<u8>, x: u16)
    ensures
        final(out)@ == old(out)@ + spec_u16_to_le_bytes(x),
{
    let mut b = u16_to_le_bytes(x);
    out.append(&mut b);
}

/// Appends the four little-endian bytes of a 32-bit integer.
pub fn push_u32_le(out: &mut Vec<u8>, x: u32)
    ensures
        final(out)@ == old(out)@ + spec_u32_to_le_bytes(x),
{
    let mut b = u32_to_le_bytes(x);
    out.append(&mut b);
}

/// Appends the eight little-endian bytes of a 64-bit integer.
pub fn push_u64_le(out: &mut Vec<u8>, x: u64)
    ensures
        final(out)@ == old(out)@ + spec_u64_to_le_bytes(x),
{
    let mut b = u64_to_le_bytes(x);
    out.append(&mut b);
}

/// Appends the sixteen little-endian bytes of a 128-bit integer.
pub fn push_u128_le(out: &mut Vec<u8>, x: u128)
    ensures
        final(out)@ == old(out)@ + spec_u128_to_le_bytes(x),
{
    let mut b = u128_to_le_bytes(x);
    out.append(&mut b);
}

/// Reads the 16-bit integer stored little-endian at `offset`.
pub fn read_u16_le(data: &[u8], offset: usize) -> (x: u16)
    requires
        offset + 2 <= data@.len(),
    ensures
        x == spec_u16_from_le_bytes(data@.subrange(offset as int, offset + 2)),
{
    let n = data.len();
    proof {
        assert(offset + 2 <= n);
    }
    u16_from_le_bytes(slice_subrange(data, offset, offset + 2))
}

/// Reads the 32-bit integer stored little-endian at `offset`.
pub fn read_u32_le(data: &[u8], offset: usize) -> (x: u32)
    requires
        offset + 4 <= data@.len(),
    ensures
        x == spec_u32_from_le_bytes(data@.subrange(offset as int, offset + 4)),
{
    let n = data.len();
    proof {
        assert(offset + 4 <= n);
    }
    u32_from_le_bytes(slice_subrange(data, offset, offset + 4))
}

} // verus!
