//! Expiry of mailed codes. Times are microseconds since the Unix epoch.

use crate::external::whole_minutes;
use vstd::prelude::*;

verus! {

/// Integer division rounded toward zero, for a positive divisor.
pub open spec fn trunc_div(a: int, b: int) -> int {
    if a >= 0 {
        a / b
    } else {
        -((-a) / b)
    }
}

/// The whole minutes from `then` to `now`, rounded toward zero.
pub open spec fn elapsed_minutes(now: int, then: int) -> int {
    trunc_div(now - then, 60_000_000)
}

/// A code made at `then` has expired at `now` when more than `limit`
/// whole minutes have passed.
pub open spec fn is_expired(now: int, then: int, limit: int) -> bool {
    elapsed_minutes(now, then) > limit
}

/// Whether more than `limit` whole minutes lie between `then` and `now`.
/// Any limit below the whole minutes in `i64::MAX` microseconds is
/// accepted.
pub fn expired(now: i64, then: i64, limit: i64) -> (b: bool)
    requires
        0 <= limit < 153_722_867_280,
    ensures
        b == is_expired(now as int, then as int, limit as int),
{
    match now.checked_sub(then) {
        Some(d) => whole_minutes(d) > limit,
        None => {
            proof {
                let a = now - then;
                if a > 0 {
                    assert(a >= 0x8000_0000_0000_0000);
                    assert(a / 60_000_000 >= 153_722_867_280) by (nonlinear_arith)
                        requires
                            a >= 0x8000_0000_0000_0000,
                    ;
                } else {
                    assert(-a > 0);
                    assert((-a) / 60_000_000 >= 0) by (nonlinear_arith)
                        requires
                            -a > 0,
                    ;
                }
            }
            now > then
        },
    }
}

} // verus!
