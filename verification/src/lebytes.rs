use vstd::prelude::*;

verus! {

/// The value of the two little-endian bytes at `off`.
pub open spec fn le16(s: Seq<u8>, off: int) -> nat {
    (s[off] + s[off + 1] * 0x100) as nat
}

/// The value of the four little-endian bytes at `off`.
pub open spec fn le32(s: Seq<u8>, off: int) -> nat {
    (s[off] + s[off + 1] * 0x100 + s[off + 2] * 0x10000 + s[off + 3] * 0x1000000) as nat
}

/// The value of the eight little-endian bytes at `off`.
pub open spec fn le64(s: Seq<u8>, off: int) -> nat {
    (le32(s, off) + le32(s, off + 4) * 0x100000000) as nat
}

/// Reads the two little-endian bytes at `off`.
pub fn read_le16(s: &[u8], off: usize) -> (r: u16)
    requires
        off + 2 <= s@.len(),
    ensures
        r == le16(s@, off as int),
{
    (s[off] as u16) + (s[off + 1] as u16) * 0x100
}

/// Reads the four little-endian bytes at `off`.
pub fn read_le32(s: &[u8], off: usize) -> (r: u32)
    requires
        off + 4 <= s@.len(),
    ensures
        r == le32(s@, off as int),
{
    (s[off] as u32) + (s[off + 1] as u32) * 0x100 + (s[off + 2] as u32) * 0x10000 + (s[off
        + 3] as u32) * 0x1000000
}

/// Reads the eight little-endian bytes at `off`.
pub fn read_le64(s: &[u8], off: usize) -> (r: u64)
    requires
        off + 8 <= s@.len(),
    ensures
        r == le64(s@, off as int),
{
    let n = s.len();
    let lo = read_le32(s, off) as u64;
    let hi = read_le32(s, off + 4) as u64;
    proof {
        assert(lo < 0x100000000 && hi < 0x100000000);
    }
    lo + hi * 0x100000000
}

} // verus!
