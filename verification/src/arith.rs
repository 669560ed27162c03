//! Small arithmetic helpers, and a combinator that applies a supplied
//! function to a value.

use vstd::prelude::*;

verus! {

/// Applies `f` to `value` and returns whatever it returns.
pub fn apply<F: Fn(i32) -> i32>(value: i32, f: F) -> (r: i32)
    requires
        call_requires(f, (value,)),
    ensures
        call_ensures(f, (value,), r),
{
    f(value)
}

/// The square of `value`; the bound keeps the product within `i32`.
pub fn square(value: i32) -> (r: i32)
    requires
        -46340 <= value <= 46340,
    ensures
        r == value * value,
{
    proof {
        assert(-0x8000_0000 <= value * value <= 0x7fff_ffff) by (nonlinear_arith)
            requires
                -46340 <= value <= 46340,
        ;
    }
    value * value
}

/// The cube of `value`; the bound keeps the product within `i32`.
pub fn cube(value: i32) -> (r: i32)
    requires
        -1290 <= value <= 1290,
    ensures
        r == value * value * value,
{
    proof {
        assert(-0x8000_0000 <= value * value * value <= 0x7fff_ffff
            && -0x8000_0000 <= value * value <= 0x7fff_ffff) by (nonlinear_arith)
            requires
                -1290 <= value <= 1290,
        ;
    }
    value * value * value
}

} // verus!
