//! Little-endian field access for firmware tables and configuration spaces held as bytes.
use vstd::prelude::*;

verus! {

/// The unsigned 16-bit little-endian value stored at `off`.
pub open spec fn le16(s: Seq<u8>, off: int) -> int {
    s[off] as int + 256 * (s[off + 1] as int)
}

/// The unsigned 32-bit little-endian value stored at `off`.
pub open spec fn le32(s: Seq<u8>, off: int) -> int {
    le16(s, off) + 65536 * le16(s, off + 2)
}

/// The unsigned 64-bit little-endian value stored at `off`.
pub open spec fn le64(s: Seq<u8>, off: int) -> int {
    le32(s, off) + 0x1_0000_0000 * le32(s, off + 4)
}

/// The length of a slice fits in `usize`.
pub proof fn lemma_slice_len_fits(s: &[u8])
    ensures
        s@.len() <= usize::MAX,
{
    assert(vstd::slice::spec_slice_len(s) == s@.len());
}

/// A vector holding the same bytes as `s`.
pub fn copy_bytes(s: &[u8]) -> (r: Vec<u8>)
    ensures
        r@ == s@,
{
    let mut r: Vec<u8> = Vec::new();
    let mut i: usize = 0;
    while i < s.len()
        invariant
            i <= s@.len(),
            r@ == s@.take(i as int),
        decreases s@.len() - i,
    {
        r.push(s[i]);
        i = i + 1;
        assert(r@ =~= s@.take(i as int));
    }
    assert(s@.take(s@.len() as int) =~= s@);
    r
}

pub fn read_u8(s: &[u8], off: usize) -> (r: u8)
    requires
        off < s@.len(),
    ensures
        r == s@[off as int],
{
    s[off]
}

pub fn read_u16_le(s: &[u8], off: usize) -> (r: u16)
    requires
        off + 2 <= s@.len(),
    ensures
        r == le16(s@, off as int),
{
    proof {
        lemma_slice_len_fits(s);
    }
    let lo = s[off] as u16;
    let hi = s[off + 1] as u16;
    lo + hi * 256
}

pub fn read_u32_le(s: &[u8], off: usize) -> (r: u32)
    requires
        off + 4 <= s@.len(),
    ensures
        r == le32(s@, off as int),
{
    proof {
        lemma_slice_len_fits(s);
    }
    let lo = read_u16_le(s, off) as u32;
    let hi = read_u16_le(s, off + 2) as u32;
    lo + hi * 65536
}

pub fn read_u64_le(s: &[u8], off: usize) -> (r: u64)
    requires
        off + 8 <= s@.len(),
    ensures
        r == le64(s@, off as int),
{
    proof {
        lemma_slice_len_fits(s);
    }
    let lo = read_u32_le(s, off) as u64;
    let hi = read_u32_le(s, off + 4) as u64;
    lo + hi * 0x1_0000_0000
}

} // verus!
