//! Percent-change arithmetic shared by the decision rules, and the
//! ladder strategy itself.

use vstd::prelude::*;
use crate::model::PCT_FACTOR;

pub mod helldiver;

verus! {

/// Relative change from `old` to `new` as a fixed-point percent value:
/// `(new - old) / old * 100`, scaled by [`crate::model::SCALE`] and
/// truncated toward zero.  A zero baseline has no meaningful change, so
/// the sentinel `0` is returned for it; callers' thresholds then read as
/// "no signal" until a baseline exists.
pub open spec fn percent_change(old: int, new: int) -> int {
    if old == 0 {
        0
    } else if new >= old {
        (new - old) * PCT_FACTOR / old
    } else {
        -((old - new) * PCT_FACTOR / old)
    }
}

/// Computes [`percent_change`] on fixed-point inputs.  The result is
/// exact up to the truncation the specification states; it never
/// overflows an `i128`.
pub fn calculate_percent_change(old_value: u64, new_value: u64) -> (r: i128)
    ensures
        r == percent_change(old_value as int, new_value as int),
{
    if old_value == 0 {
        return 0;
    }
    if new_value >= old_value {
        let diff: u128 = (new_value - old_value) as u128;
        let num: u128 = diff * (PCT_FACTOR as u128);
        let q: u128 = num / (old_value as u128);
        proof {
            assert(num <= u64::MAX as u128 * PCT_FACTOR) by (nonlinear_arith)
                requires
                    num == diff * PCT_FACTOR,
                    diff <= u64::MAX,
            ;
            assert(q * old_value <= num && q <= num) by (nonlinear_arith)
                requires
                    q == num / (old_value as u128),
                    old_value >= 1,
                    num >= 0,
            ;
        }
        q as i128
    } else {
        let diff: u128 = (old_value - new_value) as u128;
        let num: u128 = diff * (PCT_FACTOR as u128);
        let q: u128 = num / (old_value as u128);
        proof {
            assert(num <= u64::MAX as u128 * PCT_FACTOR) by (nonlinear_arith)
                requires
                    num == diff * PCT_FACTOR,
                    diff <= u64::MAX,
            ;
            assert(q * old_value <= num && q <= num) by (nonlinear_arith)
                requires
                    q == num / (old_value as u128),
                    old_value >= 1,
                    num >= 0,
            ;
        }
        -(q as i128)
    }
}

/// A price that has not moved has a percent change of zero: for every
/// positive baseline, the change from the baseline to itself is `0`.
pub proof fn lemma_percent_change_identity(old: u64)
    requires
        old > 0,
    ensures
        percent_change(old as int, old as int) == 0,
{
    assert((old - old) * PCT_FACTOR == 0) by (nonlinear_arith);
    assert(0int / (old as int) == 0) by (nonlinear_arith)
        requires
            old > 0,
    ;
}

} // verus!
