//! Little-endian integer extraction from byte sequences.

use vstd::prelude::*;

verus! {

/// The 16-bit little-endian value stored at offset `off`.
pub open spec fn spec_le16(s: Seq<u8>, off: int) -> u16 {
    (s[off] + s[off + 1] * 0x100) as u16
}

/// The 32-bit little-endian value stored at offset `off`.
pub open spec fn spec_le32(s: Seq<u8>, off: int) -> u32 {
    (s[off] + s[off + 1] * 0x100 + s[off + 2] * 0x1_0000 + s[off + 3] * 0x100_0000) as u32
}

/// The 64-bit little-endian value stored at offset `off`.
pub open spec fn spec_le64(s: Seq<u8>, off: int) -> u64 {
    (spec_le32(s, off) + spec_le32(s, off + 4) * 0x1_0000_0000) as u64
}

pub fn le16(data: &[u8], off: usize) -> (r: u16)
    requires
        off + 2 <= data@.len(),
    ensures
        r == spec_le16(data@, off as int),
{
    (data[off] as u16) + (data[off + 1] as u16) * 0x100
}

pub fn le32(data: &[u8], off: usize) -> (r: u32)
    requires
        off + 4 <= data@.len(),
    ensures
        r == spec_le32(data@, off as int),
{
    (data[off] as u32) + (data[off + 1] as u32) * 0x100 + (data[off + 2] as u32) * 0x1_0000
        + (data[off + 3] as u32) * 0x100_0000
}

pub fn le64(data: &[u8], off: usize) -> (r: u64)
    requires
        off + 8 <= data@.len(),
    ensures
        r == spec_le64(data@, off as int),
{
    let n: usize = data.len();
    assert(off + 8 <= n);
    (le32(data, off) as u64) + (le32(data, off + 4) as u64) * 0x1_0000_0000
}

} // verus!
