//! Byte-level helpers: big-endian integer readers and range copies over
//! untrusted buffers, each with an exact contract.

use vstd::prelude::*;

verus! {

/// A big-endian 16-bit integer read at offset `i`, as a mathematical value.
pub open spec fn be16_at(s: Seq<u8>, i: int) -> int {
    (s[i] as int) * 0x100 + (s[i + 1] as int)
}

/// A big-endian 32-bit integer read at offset `i`, as a mathematical value.
pub open spec fn be32_at(s: Seq<u8>, i: int) -> int {
    (s[i] as int) * 0x1000000 + (s[i + 1] as int) * 0x10000 + (s[i + 2] as int) * 0x100
        + (s[i + 3] as int)
}

/// A big-endian 64-bit integer read at offset `i`, as a mathematical value.
pub open spec fn be64_at(s: Seq<u8>, i: int) -> int {
    (s[i] as int) * 0x100000000000000 + (s[i + 1] as int) * 0x1000000000000 + (s[i + 2] as int)
        * 0x10000000000 + (s[i + 3] as int) * 0x100000000 + (s[i + 4] as int) * 0x1000000 + (s[i
        + 5] as int) * 0x10000 + (s[i + 6] as int) * 0x100 + (s[i + 7] as int)
}

/// Reads a big-endian 16-bit field.
pub fn read_be16(s: &Vec<u8>, i: usize) -> (r: u16)
    requires
        i + 2 <= s.len(),
    ensures
        r as int == be16_at(s@, i as int),
{
    (s[i] as u16) * 0x100 + (s[i + 1] as u16)
}

/// Reads a big-endian 32-bit field.
pub fn read_be32(s: &Vec<u8>, i: usize) -> (r: u32)
    requires
        i + 4 <= s.len(),
    ensures
        r as int == be32_at(s@, i as int),
{
    (s[i] as u32) * 0x1000000 + (s[i + 1] as u32) * 0x10000 + (s[i + 2] as u32) * 0x100 + (s[i
        + 3] as u32)
}

/// Reads a big-endian 64-bit field.
pub fn read_be64(s: &Vec<u8>, i: usize) -> (r: u64)
    requires
        i + 8 <= s.len(),
    ensures
        r as int == be64_at(s@, i as int),
{
    (s[i] as u64) * 0x100000000000000 + (s[i + 1] as u64) * 0x1000000000000 + (s[i + 2] as u64)
        * 0x10000000000 + (s[i + 3] as u64) * 0x100000000 + (s[i + 4] as u64) * 0x1000000 + (s[i
        + 5] as u64) * 0x10000 + (s[i + 6] as u64) * 0x100 + (s[i + 7] as u64)
}

/// Copies `src[start..end]` into a fresh vector.
pub fn copy_range(src: &Vec<u8>, start: usize, end: usize) -> (r: Vec<u8>)
    requires
        start <= end <= src.len(),
    ensures
        r@ == src@.subrange(start as int, end as int),
{
    let mut r: Vec<u8> = Vec::new();
    let mut i: usize = start;
    while i < end
        invariant
            start <= i <= end <= src.len(),
            r@ == src@.subrange(start as int, i as int),
        decreases end - i,
    {
        r.push(src[i]);
        proof {
            assert(src@.subrange(start as int, i + 1 as int) =~= src@.subrange(
                start as int,
                i as int,
            ).push(src@[i as int]));
        }
        i = i + 1;
    }
    r
}

/// Compares two byte vectors for equality of contents.
pub fn eq_bytes(a: &Vec<u8>, b: &Vec<u8>) -> (r: bool)
    ensures
        r == (a@ == b@),
{
    if a.len() != b.len() {
        return false;
    }
    let mut i: usize = 0;
    while i < a.len()
        invariant
            i <= a.len(),
            a.len() == b.len(),
            forall|j: int| 0 <= j < i ==> a@[j] == b@[j],
        decreases a.len() - i,
    {
        if a[i] != b[i] {
            return false;
        }
        i = i + 1;
    }
    proof {
        assert(a@ =~= b@);
    }
    true
}

} // verus!
