//! The fixed-step integration strategy: one classical 4th-order Runge-Kutta
//! step. It is deterministic, uses four derivative evaluations, and carries
//! no error estimate.

use vstd::prelude::*;

use crate::fixed::{s_add, s_rat, Fix};
use crate::solver::SystemType;
use crate::state::{s_vmul, s_vrat_add, State4};

verus! {

/// The stage time `t + h * p / q`, checked.
pub open spec fn s_tplus(t: Fix, h: Fix, p: int, q: int) -> Option<Fix>
    recommends
        q >= 1,
{
    match s_rat(h, p, q) {
        None => None,
        Some(d) => s_add(t, d),
    }
}

/// The checked step-scaled derivative `h * f(tc, yc)` of a stage already
/// reached at time `tc` and state `yc`.
pub open spec fn s_hk(sys: SystemType, tc: Option<Fix>, yc: Option<State4>, h: Fix) -> Option<
    State4,
> {
    match (tc, yc) {
        (Some(tv), Some(yv)) => match sys.s_system(tv, yv) {
            None => None,
            Some(k) => s_vmul(k, h),
        },
        _ => None,
    }
}

/// One checked Runge-Kutta step of size `h` from `(t, y)`:
/// `y + (hk1 + 2 hk2 + 2 hk3 + hk4) / 6` over the four classical stages.
#[verifier::opaque]
pub open spec fn s_rk4_step(sys: SystemType, t: Fix, y: State4, h: Fix) -> Option<State4> {
    match s_hk(sys, Some(t), Some(y), h) {
        None => None,
        Some(hk1) => match s_hk(sys, s_tplus(t, h, 1, 2), s_vrat_add(y, hk1, 1, 2), h) {
            None => None,
            Some(hk2) => match s_hk(sys, s_tplus(t, h, 1, 2), s_vrat_add(y, hk2, 1, 2), h) {
                None => None,
                Some(hk3) => match s_hk(sys, s_tplus(t, h, 1, 1), s_vrat_add(y, hk3, 1, 1), h) {
                    None => None,
                    Some(hk4) => match s_vrat_add(y, hk1, 1, 6) {
                        None => None,
                        Some(z1) => match s_vrat_add(z1, hk2, 2, 6) {
                            None => None,
                            Some(z2) => match s_vrat_add(z2, hk3, 2, 6) {
                                None => None,
                                Some(z3) => s_vrat_add(z3, hk4, 1, 6),
                            },
                        },
                    },
                },
            },
        },
    }
}

/// The stage time of `s_tplus`.
pub fn tplus(t: Fix, h: Fix, p: i64, q: i64) -> (r: Option<Fix>)
    requires
        q >= 1,
    ensures
        r == s_tplus(t, h, p as int, q as int),
{
    match h.rat(p, q) {
        None => None,
        Some(d) => t.add(d),
    }
}

/// The step-scaled stage derivative of `s_hk`.
pub fn hk(sys: &SystemType, tc: Option<Fix>, yc: Option<State4>, h: Fix) -> (r: Option<State4>)
    ensures
        r == s_hk(*sys, tc, yc, h),
{
    match (tc, yc) {
        (Some(tv), Some(yv)) => match sys.system(tv, &yv) {
            None => None,
            Some(k) => k.vmul(h),
        },
        _ => None,
    }
}

/// One Runge-Kutta step of size `h` from `(t, y)`; `None` on fixed-point
/// overflow in any stage.
pub fn rk4_step(sys: &SystemType, t: Fix, y: State4, h: Fix) -> (r: Option<State4>)
    ensures
        r == s_rk4_step(*sys, t, y, h),
{
    proof {
        reveal(s_rk4_step);
    }
    match hk(sys, Some(t), Some(y), h) {
        None => None,
        Some(hk1) => match hk(sys, tplus(t, h, 1, 2), y.vrat_add(hk1, 1, 2), h) {
            None => None,
            Some(hk2) => match hk(sys, tplus(t, h, 1, 2), y.vrat_add(hk2, 1, 2), h) {
                None => None,
                Some(hk3) => match hk(sys, tplus(t, h, 1, 1), y.vrat_add(hk3, 1, 1), h) {
                    None => None,
                    Some(hk4) => match y.vrat_add(hk1, 1, 6) {
                        None => None,
                        Some(z1) => match z1.vrat_add(hk2, 2, 6) {
                            None => None,
                            Some(z2) => match z2.vrat_add(hk3, 2, 6) {
                                None => None,
                                Some(z3) => z3.vrat_add(hk4, 1, 6),
                            },
                        },
                    },
                },
            },
        },
    }
}

} // verus!
