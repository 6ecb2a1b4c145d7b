//! Small arithmetic helpers.
use vstd::prelude::*;

verus! {

/// The largest multiple of `x` that is at most `n`.
pub fn round_down(n: u64, x: u64) -> (r: u64)
    requires
        x > 0,
    ensures
        r == n - n % x,
{
    let d = n % x;
    assert(d <= n) by (nonlinear_arith)
        requires
            d == n % x,
            x > 0,
    ;
    if d == 0 {
        n
    } else {
        n - d
    }
}

} // verus!
