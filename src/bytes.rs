use vstd::prelude::*;

verus! {

/// The unsigned integer held little-endian in the first eight bytes of `b`.
pub open spec fn le_u64_value(b: Seq<u8>) -> int
    recommends
        b.len() >= 8,
{
    b[0] as int
        + 0x100 * b[1] as int
        + 0x1_0000 * b[2] as int
        + 0x100_0000 * b[3] as int
        + 0x1_0000_0000 * b[4] as int
        + 0x100_0000_0000 * b[5] as int
        + 0x1_0000_0000_0000 * b[6] as int
        + 0x100_0000_0000_0000 * b[7] as int
}

/// Reads the first eight bytes of `b` as a little-endian `u64`.
pub fn low_u64_le(b: &[u8]) -> (r: u64)
    requires
        b@.len() >= 8,
    ensures
        r == le_u64_value(b@),
{
    let b0: u64 = b[0] as u64;
    let b1: u64 = b[1] as u64;
    let b2: u64 = b[2] as u64;
    let b3: u64 = b[3] as u64;
    let b4: u64 = b[4] as u64;
    let b5: u64 = b[5] as u64;
    let b6: u64 = b[6] as u64;
    let b7: u64 = b[7] as u64;
    b0 + 0x100 * b1 + 0x1_0000 * b2 + 0x100_0000 * b3 + 0x1_0000_0000 * b4
        + 0x100_0000_0000 * b5 + 0x1_0000_0000_0000 * b6 + 0x100_0000_0000_0000 * b7
}

/// Whether every byte of `b` is zero.
pub fn all_zero(b: &[u8]) -> (r: bool)
    ensures
        r == (forall|i: int| 0 <= i < b@.len() ==> b@[i] == 0),
{
    let n = b.len();
    let mut i: usize = 0;
    while i < n
        invariant
            n == b@.len(),
            i <= n,
            forall|j: int| 0 <= j < i ==> b@[j] == 0,
        decreases n - i,
    {
        if b[i] != 0 {
            return false;
        }
        i = i + 1;
    }
    true
}

} // verus!
