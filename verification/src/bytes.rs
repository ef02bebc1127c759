//! Big-endian integers in byte sequences, and lengths as `u64`.

use vstd::prelude::*;

verus! {

/// The unsigned 32-bit integer whose big-endian encoding is the four bytes
/// of `s` starting at `off`.
pub open spec fn be_u32(s: Seq<u8>, off: int) -> u32 {
    (s[off] * 0x100_0000 + s[off + 1] * 0x1_0000 + s[off + 2] * 0x100 + s[off + 3]) as u32
}

/// The unsigned 64-bit integer whose big-endian encoding is the eight bytes
/// of `s` starting at `off`.
pub open spec fn be_u64(s: Seq<u8>, off: int) -> u64 {
    (be_u32(s, off) * 0x1_0000_0000 + be_u32(s, off + 4)) as u64
}

/// `n` as a `u64`, or the largest `u64` where `n` does not fit.
pub open spec fn clamp_u64(n: int) -> u64 {
    if n > u64::MAX {
        u64::MAX
    } else {
        n as u64
    }
}

/// Reads the big-endian `u32` stored at `off`.
pub fn read_u32_be(buf: &[u8], off: usize) -> (v: u32)
    requires
        off + 4 <= buf@.len(),
    ensures
        v == be_u32(buf@, off as int),
{
    let b0: u32 = buf[off] as u32;
    let b1: u32 = buf[off + 1] as u32;
    let b2: u32 = buf[off + 2] as u32;
    let b3: u32 = buf[off + 3] as u32;
    b0 * 0x100_0000 + b1 * 0x1_0000 + b2 * 0x100 + b3
}

/// Reads the big-endian `u64` stored at `off`.
pub fn read_u64_be(buf: &[u8], off: usize) -> (v: u64)
    requires
        off + 8 <= buf@.len(),
    ensures
        v == be_u64(buf@, off as int),
{
    let len: usize = buf.len();
    assert(off + 8 <= len);
    let hi: u64 = read_u32_be(buf, off) as u64;
    let lo: u64 = read_u32_be(buf, off + 4) as u64;
    hi * 0x1_0000_0000 + lo
}

} // verus!
