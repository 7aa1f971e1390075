//! Pseudo-random numbers: the generator of the rally and the hash that scatters
//! stars and spectators.

use vstd::prelude::*;

verus! {

/// One round of the xorshift generator.
pub open spec fn xorshift(x: u64) -> u64 {
    let a = x ^ (x << 13);
    let b = a ^ (a >> 7);
    b ^ (b << 17)
}

/// Steps the xorshift generator.
pub fn next_random(x: u64) -> (r: u64)
    ensures
        r == xorshift(x),
{
    let a: u64 = x ^ (x << 13);
    let b: u64 = a ^ (a >> 7);
    b ^ (b << 17)
}

/// The last rounds of the hash.
pub open spec fn scrambled(h: u64) -> u64 {
    let a = h ^ (h >> 13);
    let b = a.wrapping_mul(0x27D4EB2Fu64);
    b ^ (b >> 15)
}

/// The hash of a position and a seed.
pub open spec fn hash(x: u64, y: u64, seed: u64) -> u64 {
    scrambled(
        x.wrapping_mul(0x9E3779B1u64) ^ y.wrapping_mul(0x85EBCA77u64) ^ seed.wrapping_mul(
            0xC2B2AE3Du64,
        ),
    )
}

/// Hashes a position and a seed.
pub fn hash2(x: u64, y: u64, seed: u64) -> (r: u64)
    ensures
        r == hash(x, y, seed),
{
    let mut h: u64 = x.wrapping_mul(0x9E3779B1) ^ y.wrapping_mul(0x85EBCA77) ^ seed.wrapping_mul(
        0xC2B2AE3D,
    );
    h = h ^ (h >> 13);
    h = h.wrapping_mul(0x27D4EB2F);
    h ^ (h >> 15)
}

/// The generator never gets stuck at zero.
pub proof fn law_random_never_zero(x: u64)
    requires
        x != 0,
    ensures
        xorshift(x) != 0,
{
    assert(x != 0 ==> ({
        let a = x ^ (x << 13);
        let b = a ^ (a >> 7);
        b ^ (b << 17)
    }) != 0) by (bit_vector);
}

/// The generator loses nothing: different states have different successors.
pub proof fn law_random_injective(x: u64, y: u64)
    requires
        xorshift(x) == xorshift(y),
    ensures
        x == y,
{
    let ax = x ^ (x << 13);
    let bx = ax ^ (ax >> 7);
    let ay = y ^ (y << 13);
    let by_ = ay ^ (ay >> 7);
    assert((bx ^ (bx << 17)) == (by_ ^ (by_ << 17)) ==> bx == by_) by (bit_vector);
    assert((ax ^ (ax >> 7)) == (ay ^ (ay >> 7)) ==> ax == ay) by (bit_vector);
    assert((x ^ (x << 13)) == (y ^ (y << 13)) ==> x == y) by (bit_vector);
}

/// A draw is the upper 53 bits of a state, so that it counts in steps of one in 2^53.
pub proof fn law_draw_below_one(x: u64)
    ensures
        x >> 11 < 0x20_0000_0000_0000,
{
    assert(x >> 11 < 0x20_0000_0000_0000u64) by (bit_vector);
}

/// The generator mixes its state by three shifts, the hash its arguments by products and
/// two shifts.
pub proof fn law_mixing(x: u64, y: u64, seed: u64)
    ensures
        xorshift(x) == ({
            let a = x ^ (x << 13);
            (a ^ (a >> 7)) ^ ((a ^ (a >> 7)) << 17)
        }),
        hash(x, y, seed) == ({
            let h = x.wrapping_mul(0x9E3779B1) ^ y.wrapping_mul(0x85EBCA77) ^ seed.wrapping_mul(
                0xC2B2AE3D,
            );
            let k = (h ^ (h >> 13)).wrapping_mul(0x27D4EB2F);
            k ^ (k >> 15)
        }),
{
}

} // verus!
