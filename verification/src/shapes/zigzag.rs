//! The sign-folding step of the shape encoding: signed deltas of small
//! magnitude become small naturals.

use vstd::prelude::*;

verus! {

/// Folds a signed integer into a natural: `0, -1, 1, -2, 2, ...` map to
/// `0, 1, 2, 3, 4, ...`.
pub open spec fn zigzag(d: int) -> nat {
    if d >= 0 {
        (2 * d) as nat
    } else {
        (-2 * d - 1) as nat
    }
}

/// Inverse of [`zigzag`].
pub open spec fn unzigzag(n: nat) -> int {
    if n % 2 == 0 {
        n as int / 2
    } else {
        -(n as int / 2) - 1
    }
}

/// `zigzag` and `unzigzag` are mutually inverse bijections between the
/// integers and the naturals.
pub proof fn lemma_zigzag_inverse(d: int, n: nat)
    ensures
        unzigzag(zigzag(d)) == d,
        zigzag(unzigzag(n)) == n,
{
}

/// A delta fits the 32-bit accumulator exactly when its folded form fits
/// 32 unsigned bits.
pub proof fn lemma_zigzag_range(d: int)
    ensures
        i32::MIN <= d <= i32::MAX <==> zigzag(d) <= u32::MAX,
{
}

/// Folds a 32-bit delta: `(d << 1) ^ (d >> 31)` on the two's complement
/// representation.
pub fn fold(d: i32) -> (z: u32)
    ensures
        z == zigzag(d as int),
{
    let z: u32 = #[verifier::truncate] (((d << 1) ^ (d >> 31)) as u32);
    assert(d >= 0 ==> z == 2 * d) by (bit_vector)
        requires
            z == ((d << 1) ^ (d >> 31)) as u32,
    ;
    assert(d < 0 ==> z == -2 * d - 1) by (bit_vector)
        requires
            z == ((d << 1) ^ (d >> 31)) as u32,
    ;
    z
}

/// Unfolds a 32-bit value: `z >> 1` when `z` is even, `!(z >> 1)` when odd.
pub fn unfold(z: u32) -> (d: i32)
    ensures
        d == unzigzag(z as nat),
{
    let half: i32 = (z >> 1) as i32;
    assert(half == z / 2 && (z & 1 == 1 <==> z % 2 == 1)) by (bit_vector)
        requires
            half == (z >> 1) as i32,
    ;
    if z & 1 == 1 {
        assert(!half == -half - 1) by (bit_vector);
        !half
    } else {
        half
    }
}

} // verus!
