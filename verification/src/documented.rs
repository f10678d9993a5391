//! A small documented collection of example functions.

use vstd::prelude::*;

verus! {

/// Twice the argument.
pub fn example_function(n: i32) -> (r: i32)
    requires
        i32::MIN / 2 <= n <= i32::MAX / 2,
    ensures
        r == 2 * n,
{
    n * 2
}

/// Twice the wrapped number.  The caller must supply a number: this is
/// the variant that would panic on `None`, so `None` is ruled out here.
pub fn panic_example(n: Option<i32>) -> (r: i32)
    requires
        n matches Some(v) && i32::MIN / 2 <= v <= i32::MAX / 2,
    ensures
        r == 2 * n.unwrap(),
{
    match n {
        Some(v) => v * 2,
        None => 0,
    }
}

/// Wraps [`example_function`].
pub fn example_function_wrapper(n: i32) -> (r: i32)
    requires
        i32::MIN / 2 <= n <= i32::MAX / 2,
    ensures
        r == 2 * n,
{
    example_function(n)
}

/// The fourth element of a fixed five-element vector; the index is in
/// bounds, so the access needs no unchecked tricks.
pub fn example_fast_access() -> (r: i32)
    ensures
        r == 4,
{
    let n = vec![1, 2, 3, 4, 5];
    n[3]
}

} // verus!
