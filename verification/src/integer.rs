//! Addition of 32-bit signed integers with two's-complement wraparound.
use vstd::prelude::*;

verus! {

/// The number of values a 32-bit integer can take.
pub open spec fn modulus() -> int {
    0x1_0000_0000
}

/// The 32-bit signed integer that is congruent to `x` modulo 2^32.
pub open spec fn wrap(x: int) -> int {
    (x + 0x8000_0000) % modulus() - 0x8000_0000
}

/// The sum of `a` and `b` as 32-bit signed arithmetic gives it: the exact sum
/// where it fits, and otherwise the exact sum moved by 2^32 back into range.
pub open spec fn wrapped_sum(a: int, b: int) -> int {
    wrap(a + b)
}

/// Adds two 32-bit signed integers. The operation never fails: a sum that
/// does not fit wraps around.
pub fn add(a: i32, b: i32) -> (sum: i32)
    ensures
        sum == wrapped_sum(a as int, b as int),
{
    a.wrapping_add(b)
}

/// Wrapping `x` gives a value in the range of a 32-bit signed integer that
/// differs from `x` by a multiple of 2^32.
pub proof fn lemma_wrap_is_congruent(x: int)
    ensures
        i32::MIN <= wrap(x) <= i32::MAX,
        (wrap(x) - x) % modulus() == 0,
{
    let q = (x + 0x8000_0000) / modulus();
    assert(x + 0x8000_0000 == modulus() * q + (x + 0x8000_0000) % modulus()) by {
        vstd::arithmetic::div_mod::lemma_fundamental_div_mod(x + 0x8000_0000, modulus());
    }
    assert(wrap(x) - x == modulus() * (-q));
    assert((modulus() * (-q)) % modulus() == 0) by {
        vstd::arithmetic::div_mod::lemma_mod_multiples_basic(-q, modulus());
    }
}

/// A sum that fits is exact; one that is too large comes back 2^32 smaller,
/// one that is too small 2^32 larger.
pub proof fn lemma_wrapped_sum_cases(a: i32, b: i32)
    ensures
        i32::MIN <= a + b <= i32::MAX ==> wrapped_sum(a as int, b as int) == a + b,
        a + b > i32::MAX ==> wrapped_sum(a as int, b as int) == a + b - modulus(),
        a + b < i32::MIN ==> wrapped_sum(a as int, b as int) == a + b + modulus(),
{
}

} // verus!
