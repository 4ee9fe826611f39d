//! Addition of 32-bit signed integers.
//!
//! Overflow policy: the sum wraps. A sum that leaves the `i32` range is
//! reduced modulo 2^32 back into it, as two's-complement hardware does, so
//! `adder` is total and never panics.

use vstd::prelude::*;

verus! {

/// The value of `n` in 32-bit two's complement: the one integer of the `i32`
/// range that differs from `n` by a multiple of 2^32.
pub open spec fn wrap_i32(n: int) -> int {
    (n + 0x8000_0000) % 0x1_0000_0000 - 0x8000_0000
}

/// What `adder` returns for `x` and `y`: their sum, wrapped into the `i32`
/// range.
pub open spec fn wrapped_sum(x: int, y: int) -> int {
    wrap_i32(x + y)
}

/// Adds `x` and `y`.
///
/// Where the sum fits in an `i32` the result is the sum. Where it does not,
/// the result wraps: a sum above `i32::MAX` comes back lowered by 2^32, one
/// below `i32::MIN` raised by 2^32.
pub fn adder(x: i32, y: i32) -> (sum: i32)
    ensures
        sum == wrapped_sum(x as int, y as int),
        i32::MIN <= x + y <= i32::MAX ==> sum == x + y,
        x + y > i32::MAX ==> sum == x + y - 0x1_0000_0000,
        x + y < i32::MIN ==> sum == x + y + 0x1_0000_0000,
{
    x.wrapping_add(y)
}

/// `adder` is commutative: swapping its operands leaves the result as it was,
/// whether or not the sum wraps.
pub proof fn lemma_adder_commutative(x: i32, y: i32)
    ensures
        wrapped_sum(x as int, y as int) == wrapped_sum(y as int, x as int),
{
}

/// On operands whose sum fits in an `i32`, `adder` returns the mathematical
/// sum.
pub proof fn lemma_adder_exact(x: i32, y: i32)
    requires
        i32::MIN <= x + y <= i32::MAX,
    ensures
        wrapped_sum(x as int, y as int) == x + y,
{
}

/// The overflow policy without a formula: the result of `adder` is the only
/// value of the `i32` range that differs from the mathematical sum by a
/// multiple of 2^32.
pub proof fn lemma_adder_wraps(x: i32, y: i32, r: int)
    ensures
        r == wrapped_sum(x as int, y as int) <==> (i32::MIN <= r <= i32::MAX
            && (r - (x + y)) % 0x1_0000_0000 == 0),
{
}

} // verus!
