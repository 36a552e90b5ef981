//! Integer and boolean helpers.

use vstd::prelude::*;

verus! {

/// The value in the range of `i32` that is congruent to `v` modulo 2^32.
pub open spec fn wrap_i32(v: int) -> int {
    let r = v % 0x1_0000_0000;
    if r >= 0x8000_0000 {
        r - 0x1_0000_0000
    } else {
        r
    }
}

/// What [`square`] returns: the product, wrapped to 32 bits.
pub open spec fn squared(val: i32) -> i32 {
    wrap_i32(val * val) as i32
}

/// What [`invert`] returns.
pub open spec fn inverted(val: bool) -> bool {
    !val
}

/// What [`isOdd`] returns: true iff `val` is not a multiple of two. The sign
/// of `val` plays no part.
pub open spec fn odd(val: i64) -> bool {
    val % 2 != 0
}

/// `val` times `val`, wrapped to 32 bits where the product does not fit.
#[verifier::when_used_as_spec(squared)]
pub fn square(val: i32) -> (r: i32)
    ensures
        r == squared(val),
        (r - val * val) % 0x1_0000_0000 == 0,
        val * val <= i32::MAX ==> r == val * val,
{
    proof {
        assert(val * val >= 0) by (nonlinear_arith);
        wrap_i32_congruent(val * val);
    }
    val.wrapping_mul(val)
}

/// Logical negation.
#[verifier::when_used_as_spec(inverted)]
pub fn invert(val: bool) -> (r: bool)
    ensures
        r == inverted(val),
{
    !val
}

/// Whether `val` is odd. Negative odd numbers are odd.
#[allow(non_snake_case)]
#[verifier::when_used_as_spec(odd)]
pub fn isOdd(val: i64) -> (r: bool)
    ensures
        r == odd(val),
{
    val % 2 != 0
}

/// Wrapping keeps a value's residue modulo 2^32, lands in the range of
/// `i32`, and leaves a value that is already in that range alone.
pub proof fn wrap_i32_congruent(v: int)
    ensures
        (wrap_i32(v) - v) % 0x1_0000_0000 == 0,
        i32::MIN <= wrap_i32(v) <= i32::MAX,
        i32::MIN <= v <= i32::MAX ==> wrap_i32(v) == v,
{
}

/// A square and the exact product differ by a multiple of 2^32, and are
/// equal wherever the exact product fits in 32 bits.
pub proof fn square_is_product_modulo_wraparound(n: i32)
    ensures
        (square(n) - n * n) % 0x1_0000_0000 == 0,
        n * n <= i32::MAX ==> square(n) == n * n,
{
    assert(n * n >= 0) by (nonlinear_arith);
    wrap_i32_congruent(n * n);
}

/// Inverting twice gives the value back.
pub proof fn invert_involution(b: bool)
    ensures
        invert(invert(b)) == b,
{
}

/// Parity has period two: a number and the number two above it are both odd
/// or both even. Where the number two above does not fit in 64 bits, this
/// holds of the wrapped sum.
pub proof fn odd_period_two(n: i64)
    ensures
        n + 2 <= i64::MAX ==> isOdd(n) == isOdd((n + 2) as i64),
        isOdd(n) == isOdd(n.wrapping_add(2)),
{
}

} // verus!
