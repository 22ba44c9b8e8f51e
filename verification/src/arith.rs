//! Two's-complement arithmetic on 32-bit signed integers.

use vstd::prelude::*;

verus! {

/// The number of distinct values of a 32-bit integer.
pub open spec fn modulus() -> int {
    0x1_0000_0000
}

/// True when `v` is representable as a 32-bit signed integer.
pub open spec fn fits_i32(v: int) -> bool {
    i32::MIN <= v <= i32::MAX
}

/// The 32-bit signed integer congruent to `v` modulo 2^32: the value that
/// two's-complement hardware keeps of the exact result `v`.
pub open spec fn wrap_i32(v: int) -> int {
    (v - i32::MIN) % modulus() + i32::MIN
}

/// Wrapping an intermediate result does not change the wrapped final
/// result: a chain of wrapping additions ends on the wrapped exact sum.
pub proof fn lemma_wrap_i32_absorbs(partial: int, next: int)
    ensures
        wrap_i32(wrap_i32(partial) + next) == wrap_i32(partial + next),
{
}

/// The sum of `a` and `b`, wrapped to 32 bits.
pub fn add(a: i32, b: i32) -> (sum: i32)
    ensures
        sum == wrap_i32(a + b),
        fits_i32(a + b) ==> sum == a + b,
{
    a.wrapping_add(b)
}

/// The difference `x - y`, wrapped to 32 bits.
pub fn subtract(x: i32, y: i32) -> (difference: i32)
    ensures
        difference == wrap_i32(x - y),
        fits_i32(x - y) ==> difference == x - y,
{
    x.wrapping_sub(y)
}

} // verus!
