use vstd::prelude::*;

verus! {

/// The 16-bit little-endian integer stored at `p`.
pub open spec fn le16(s: Seq<u8>, p: int) -> int {
    s[p] as int + s[p + 1] as int * 0x100
}

/// The 32-bit little-endian integer stored at `p`.
pub open spec fn le32(s: Seq<u8>, p: int) -> int {
    le16(s, p) + le16(s, p + 2) * 0x10000
}

/// The 64-bit little-endian integer stored at `p`.
pub open spec fn le64(s: Seq<u8>, p: int) -> int {
    le32(s, p) + le32(s, p + 4) * 0x1_0000_0000
}

/// Reads a little-endian `u16` at `p`; `None` when fewer than two bytes remain.
pub fn read_u16(s: &[u8], p: usize) -> (r: Option<u16>)
    ensures
        r is Some <==> p + 2 <= s@.len(),
        r matches Some(v) ==> v == le16(s@, p as int),
{
    if p > s.len() || s.len() - p < 2 {
        return None;
    }
    let b0 = s[p] as u16;
    let b1 = s[p + 1] as u16;
    assert(b0 + b1 * 0x100 <= 0xffff) by (nonlinear_arith)
        requires
            b0 <= 0xff,
            b1 <= 0xff,
    ;
    Some(b0 + b1 * 0x100)
}

/// Reads a little-endian `u32` at `p`; `None` when fewer than four bytes remain.
pub fn read_u32(s: &[u8], p: usize) -> (r: Option<u32>)
    ensures
        r is Some <==> p + 4 <= s@.len(),
        r matches Some(v) ==> v == le32(s@, p as int),
{
    if p > s.len() || s.len() - p < 4 {
        return None;
    }
    let lo = read_u16(s, p).unwrap() as u32;
    let hi = read_u16(s, p + 2).unwrap() as u32;
    assert(lo + hi * 0x10000 <= 0xffff_ffff) by (nonlinear_arith)
        requires
            lo <= 0xffff,
            hi <= 0xffff,
    ;
    Some(lo + hi * 0x10000)
}

/// Reads a little-endian `u64` at `p`; `None` when fewer than eight bytes remain.
pub fn read_u64(s: &[u8], p: usize) -> (r: Option<u64>)
    ensures
        r is Some <==> p + 8 <= s@.len(),
        r matches Some(v) ==> v == le64(s@, p as int),
{
    if p > s.len() || s.len() - p < 8 {
        return None;
    }
    let lo = read_u32(s, p).unwrap() as u64;
    let hi = read_u32(s, p + 4).unwrap() as u64;
    assert(lo + hi * 0x1_0000_0000 <= 0xffff_ffff_ffff_ffff) by (nonlinear_arith)
        requires
            lo <= 0xffff_ffff,
            hi <= 0xffff_ffff,
    ;
    Some(lo + hi * 0x1_0000_0000)
}

} // verus!
