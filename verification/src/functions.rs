//! A function with two parameters and a result.

use vstd::prelude::*;

verus! {

/// The sum of two numbers, where it fits in an `i32`.
pub fn add_numbers(x: i32, y: i32) -> (sum: i32)
    requires
        i32::MIN <= x + y <= i32::MAX,
    ensures
        sum == x + y,
{
    x + y
}

} // verus!
