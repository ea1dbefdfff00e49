//! Addition of two 32-bit signed integers, as a host calls it across a binary
//! interface.
//!
//! Overflow wraps in two's complement, so every pair of `i32` arguments has a
//! sum and no call fails: `add(i32::MAX, 1)` is `i32::MIN`.

use vstd::prelude::*;

verus! {

/// The sum of `a` and `b` as 32 bits hold it.
///
/// It is `a + b` where that lies in `i32`'s range. Beyond `i32::MAX` the sum
/// comes back in at `i32::MIN`, and below `i32::MIN` at `i32::MAX`: it is then
/// off by 2 to the power of 32, the number of values an `i32` can hold.
pub open spec fn wrapped_sum(a: i32, b: i32) -> int {
    if a + b > i32::MAX {
        a + b - 0x1_0000_0000
    } else if a + b < i32::MIN {
        a + b + 0x1_0000_0000
    } else {
        a + b
    }
}

/// Adds `a` and `b`, wrapping in two's complement on overflow.
///
/// Where the true sum fits in an `i32`, the result is that sum. The function
/// reads and writes nothing but its arguments and its result, and it returns on
/// every pair of arguments.
pub fn add(a: i32, b: i32) -> (sum: i32)
    ensures
        sum == wrapped_sum(a, b),
        i32::MIN <= a + b <= i32::MAX ==> sum == a + b,
{
    a.wrapping_add(b)
}

/// Calling `add` again on the same arguments gives the same sum: any two results
/// that its contract admits for one pair of arguments are equal.
pub proof fn repeated_calls_agree(a: i32, b: i32, first: i32, second: i32)
    requires
        first == wrapped_sum(a, b),
        second == wrapped_sum(a, b),
    ensures
        first == second,
{
}

} // verus!
