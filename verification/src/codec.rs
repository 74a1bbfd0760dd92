//! Encoding of a 128-bit reference value into four 32-bit storage words.
//!
//! The host window record reserves four 32-bit extra-storage slots per
//! window.  A reference value is split into four words in a fixed order,
//! most significant 32 bits first, and reassembled from them.

use vstd::prelude::*;

verus! {

/// Most significant 32 bits of a reference value.
pub open spec fn part1(r: u128) -> u32 {
    ((r >> 96) & 0xffff_ffff) as u32
}

/// Bits 64..96 of a reference value.
pub open spec fn part2(r: u128) -> u32 {
    ((r >> 64) & 0xffff_ffff) as u32
}

/// Bits 32..64 of a reference value.
pub open spec fn part3(r: u128) -> u32 {
    ((r >> 32) & 0xffff_ffff) as u32
}

/// Least significant 32 bits of a reference value.
pub open spec fn part4(r: u128) -> u32 {
    (r & 0xffff_ffff) as u32
}

/// The reference value whose words, most significant first, are
/// `p1`, `p2`, `p3`, `p4`.
pub open spec fn assemble(p1: u32, p2: u32, p3: u32, p4: u32) -> u128 {
    ((p1 as u128) << 96) | ((p2 as u128) << 64) | ((p3 as u128) << 32) | (p4 as u128)
}

/// Splits a reference value into its four storage words,
/// most significant first.
pub fn encode(r: u128) -> (p: (u32, u32, u32, u32))
    ensures
        p.0 == part1(r),
        p.1 == part2(r),
        p.2 == part3(r),
        p.3 == part4(r),
{
    let p1: u32 = ((r >> 96) & 0xffff_ffff) as u32;
    let p2: u32 = ((r >> 64) & 0xffff_ffff) as u32;
    let p3: u32 = ((r >> 32) & 0xffff_ffff) as u32;
    let p4: u32 = (r & 0xffff_ffff) as u32;
    (p1, p2, p3, p4)
}

/// Reassembles a reference value from its four storage words,
/// most significant first.
pub fn decode(p1: u32, p2: u32, p3: u32, p4: u32) -> (r: u128)
    ensures
        r == assemble(p1, p2, p3, p4),
{
    ((p1 as u128) << 96) | ((p2 as u128) << 64) | ((p3 as u128) << 32) | (p4 as u128)
}

/// Round trip: reassembling the four words of a reference value gives the
/// value back, for every 128-bit value.
pub proof fn lemma_split_assemble(r: u128)
    ensures
        assemble(part1(r), part2(r), part3(r), part4(r)) == r,
{
    assert((((((r >> 96) & 0xffff_ffff) as u32) as u128) << 96)
        | (((((r >> 64) & 0xffff_ffff) as u32) as u128) << 64)
        | (((((r >> 32) & 0xffff_ffff) as u32) as u128) << 32)
        | (((r & 0xffff_ffff) as u32) as u128) == r) by (bit_vector);
}

/// Round trip in the other direction: the words of an assembled value are
/// the words it was assembled from, so the encoding loses nothing.
pub proof fn lemma_assemble_split(p1: u32, p2: u32, p3: u32, p4: u32)
    ensures
        part1(assemble(p1, p2, p3, p4)) == p1,
        part2(assemble(p1, p2, p3, p4)) == p2,
        part3(assemble(p1, p2, p3, p4)) == p3,
        part4(assemble(p1, p2, p3, p4)) == p4,
{
    let r = ((p1 as u128) << 96) | ((p2 as u128) << 64) | ((p3 as u128) << 32) | (p4 as u128);
    assert(((r >> 96) & 0xffff_ffff) as u32 == p1
        && ((r >> 64) & 0xffff_ffff) as u32 == p2
        && ((r >> 32) & 0xffff_ffff) as u32 == p3
        && (r & 0xffff_ffff) as u32 == p4) by (bit_vector)
        requires
            r == ((p1 as u128) << 96) | ((p2 as u128) << 64) | ((p3 as u128) << 32)
                | (p4 as u128),
    ;
}

} // verus!
