use vstd::prelude::*;

verus! {

/// The value of the eight little-endian bytes of `s` starting at offset `i`:
/// byte `i` is the least significant.
pub open spec fn le64_at(s: Seq<u8>, i: int) -> u64
    recommends
        0 <= i,
        i + 8 <= s.len(),
{
    (s[i] + s[i + 1] * 0x100 + s[i + 2] * 0x1_0000 + s[i + 3] * 0x100_0000 + s[i + 4]
        * 0x1_0000_0000 + s[i + 5] * 0x100_0000_0000 + s[i + 6] * 0x1_0000_0000_0000 + s[i + 7]
        * 0x100_0000_0000_0000) as u64
}

/// Reads the unsigned 64-bit little-endian field of `input` at offset `i`.
pub fn read_le64_at(input: &[u8], i: usize) -> (r: u64)
    requires
        i + 8 <= input@.len(),
    ensures
        r == le64_at(input@, i as int),
{
    let r: u64 = (input[i] as u64) + (input[i + 1] as u64) * 0x100 + (input[i + 2] as u64)
        * 0x1_0000 + (input[i + 3] as u64) * 0x100_0000 + (input[i + 4] as u64) * 0x1_0000_0000 + (
    input[i + 5] as u64) * 0x100_0000_0000 + (input[i + 6] as u64) * 0x1_0000_0000_0000 + (input[i
        + 7] as u64) * 0x100_0000_0000_0000;
    r
}

} // verus!
