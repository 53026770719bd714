//! Little-endian integers read out of firmware-owned records.

use vstd::prelude::*;

verus! {

/// The unsigned integer held by `n` bytes of `b` from offset `at`, least
/// significant byte first.
pub open spec fn le_value(b: Seq<u8>, at: int, n: nat) -> nat
    decreases n,
{
    if n == 0 {
        0
    } else {
        b[at] as nat + 256 * le_value(b, at + 1, (n - 1) as nat)
    }
}

pub fn read_u8(b: &[u8], at: usize) -> (r: u8)
    requires
        at < b@.len(),
    ensures
        r as nat == le_value(b@, at as int, 1),
{
    reveal_with_fuel(le_value, 2);
    b[at]
}

pub fn read_u16(b: &[u8], at: usize) -> (r: u16)
    requires
        at + 2 <= b@.len(),
    ensures
        r as nat == le_value(b@, at as int, 2),
{
    reveal_with_fuel(le_value, 3);
    b[at] as u16 + (b[at + 1] as u16) * 256
}

pub fn read_u32(b: &[u8], at: usize) -> (r: u32)
    requires
        at + 4 <= b@.len(),
    ensures
        r as nat == le_value(b@, at as int, 4),
{
    reveal_with_fuel(le_value, 5);
    b[at] as u32 + (b[at + 1] as u32) * 0x100 + (b[at + 2] as u32) * 0x1_0000 + (b[at + 3] as u32)
        * 0x100_0000
}

pub fn read_u64(b: &[u8], at: usize) -> (r: u64)
    requires
        at + 8 <= b@.len(),
    ensures
        r as nat == le_value(b@, at as int, 8),
{
    reveal_with_fuel(le_value, 9);
    let _n = b.len();
    let lo = read_u32(b, at) as u64;
    let hi = read_u32(b, at + 4) as u64;
    proof {
        lemma_le_split(b@, at as int);
    }
    lo + hi * 0x1_0000_0000
}

proof fn lemma_le_split(b: Seq<u8>, at: int)
    ensures
        le_value(b, at, 8) == le_value(b, at, 4) + 0x1_0000_0000 * le_value(b, at + 4, 4),
{
    reveal_with_fuel(le_value, 9);
}

} // verus!
