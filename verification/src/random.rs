//! From the bytes that the environment hands out as randomness to the number
//! that the game draws.

use vstd::prelude::*;

verus! {

/// The number that four bytes spell when the first is the lowest.
pub open spec fn little_endian_u32(b0: u8, b1: u8, b2: u8, b3: u8) -> int {
    b0 + 0x100 * b1 + 0x1_0000 * b2 + 0x100_0000 * b3
}

/// The draw that a random hash stands for: its first four bytes read as one
/// number, the first byte the lowest. The remaining bytes play no part.
pub fn random_u32_from_hash(hash: &[u8; 32]) -> (draw: u32)
    ensures
        draw == little_endian_u32(hash[0], hash[1], hash[2], hash[3]),
{
    let b0: u32 = hash[0] as u32;
    let b1: u32 = hash[1] as u32;
    let b2: u32 = hash[2] as u32;
    let b3: u32 = hash[3] as u32;
    b0 + 0x100 * b1 + 0x1_0000 * b2 + 0x100_0000 * b3
}

} // verus!
