//! Integer helpers: a sum and a parity test.

use vstd::prelude::*;

verus! {

/// Whether the mathematical integer `n` is a multiple of two.
pub open spec fn even(n: int) -> bool {
    n % 2 == 0
}

/// The sum of `a` and `b`.
///
/// The sum has to fit in an `i32`; within that range the result is the
/// mathematical sum.
pub fn add_numbers(a: i32, b: i32) -> (sum: i32)
    requires
        i32::MIN <= a + b <= i32::MAX,
    ensures
        sum == a + b,
{
    a + b
}

/// Whether `num` is even. Defined for every `i32`, negative values and zero
/// included.
pub fn is_even(num: i32) -> (result: bool)
    ensures
        result == even(num as int),
{
    num % 2 == 0
}

} // verus!
