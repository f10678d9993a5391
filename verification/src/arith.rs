//! Small arithmetic helpers: doubling with wrap-around, doubling with an
//! overflow check, and a pair of toy computations.

use vstd::prelude::*;

verus! {

/// Twice the argument, with two's-complement wrap-around on overflow.
pub fn double_overflow(n: i32) -> (r: i32)
    ensures
        r == vstd::wrapping::i32_specs::wrapping_mul(n, 2),
        i32::MIN / 2 <= n <= i32::MAX / 2 ==> r == 2 * n,
{
    n.wrapping_mul(2)
}

/// Twice the argument, or an error when that does not fit an `i32`.
pub fn double_safe(n: i32) -> (r: Result<i32, String>)
    ensures
        i32::MIN / 2 <= n <= i32::MAX / 2 ==> (r matches Ok(v) && v == 2 * n),
        !(i32::MIN / 2 <= n <= i32::MAX / 2) ==> (r matches Err(e) && e@ == "overflow"@),
{
    match n.checked_mul(2) {
        Some(v) => Ok(v),
        None => Err("overflow".to_owned()),
    }
}

/// Three times the argument.
pub fn triple(n: i32) -> (r: i32)
    requires
        -715827882 <= n <= 715827882,
    ensures
        r == 3 * n,
{
    n * 3
}

/// A stand-in for an expensive computation.
pub fn complex_math() -> (r: i32)
    ensures
        r == 12,
{
    4 * 3
}

/// A calculation the caller supplies an implementation of.
pub trait MyTrait {
    /// Maps one number to another, as the implementor sees fit.
    fn calculate(&self, x: u32) -> u32;
}

} // verus!
