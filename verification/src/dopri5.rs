//! The adaptive integration strategy: an embedded Dormand-Prince
//! Runge-Kutta pair of order 5(4).
//!
//! Each trial step produces a 5th-order candidate and a 4th-order error
//! estimate; the step is accepted when every component of the estimate stays
//! within `atol + rtol * |y|`, and otherwise retried with half the step size.
//! A bounded budget of trial steps guards the sub-stepping: when it runs out,
//! or when the step size underflows to zero, the integration reports failure
//! instead of returning an out-of-tolerance state.

use vstd::prelude::*;

use crate::fixed::{s_abs, s_add, s_mul, s_rat, s_sub, Fix};
use crate::rk4::{hk, s_hk, s_tplus, tplus};
use crate::solver::SystemType;
use crate::state::{s_vrat_add, State4};

verus! {

/// Trial steps allowed inside one requested interval before the adaptive
/// strategy gives up.
pub const ADAPT_FUEL: u32 = 512;

/// Checked scaled accumulation lifted to a checked accumulator:
/// `acc + v * p / q`.
pub open spec fn s_vra(acc: Option<State4>, v: State4, p: int, q: int) -> Option<State4>
    recommends
        q >= 1,
{
    match acc {
        None => None,
        Some(a) => s_vrat_add(a, v, p, q),
    }
}

/// One component of the acceptance test: `|e| <= atol + rtol * |y|`, checked.
pub open spec fn s_tol_one(e: Fix, yv: Fix, atol: Fix, rtol: Fix) -> Option<bool> {
    match s_abs(e) {
        None => None,
        Some(ae) => match s_abs(yv) {
            None => None,
            Some(ay) => match s_mul(rtol, ay) {
                None => None,
                Some(m) => match s_add(atol, m) {
                    None => None,
                    Some(tol) => Some(ae@ <= tol@),
                },
            },
        },
    }
}

/// The acceptance test on every component of the error estimate.
pub open spec fn s_tol_ok(err: State4, y: State4, atol: Fix, rtol: Fix) -> Option<bool> {
    match (
        s_tol_one(err.c0, y.c0, atol, rtol),
        s_tol_one(err.c1, y.c1, atol, rtol),
        s_tol_one(err.c2, y.c2, atol, rtol),
        s_tol_one(err.c3, y.c3, atol, rtol),
    ) {
        (Some(b0), Some(b1), Some(b2), Some(b3)) => Some(b0 && b1 && b2 && b3),
        _ => None,
    }
}

/// One checked Dormand-Prince trial step of size `h` from `(t, y)`: the
/// 5th-order candidate together with the verdict of the acceptance test on
/// the embedded 4th-order error estimate.
#[verifier::opaque]
pub open spec fn s_dopri_try(sys: SystemType, t: Fix, y: State4, h: Fix, atol: Fix, rtol: Fix) -> Option<
    (State4, bool),
> {
    match s_hk(sys, Some(t), Some(y), h) {
        None => None,
        Some(hk1) => match s_hk(sys, s_tplus(t, h, 1, 5), s_vra(Some(y), hk1, 1, 5), h) {
            None => None,
            Some(hk2) => match s_hk(
                sys,
                s_tplus(t, h, 3, 10),
                s_vra(s_vra(Some(y), hk1, 3, 40), hk2, 9, 40),
                h,
            ) {
                None => None,
                Some(hk3) => match s_hk(
                    sys,
                    s_tplus(t, h, 4, 5),
                    s_vra(s_vra(s_vra(Some(y), hk1, 44, 45), hk2, -56, 15), hk3, 32, 9),
                    h,
                ) {
                    None => None,
                    Some(hk4) => match s_hk(
                        sys,
                        s_tplus(t, h, 8, 9),
                        s_vra(
                            s_vra(
                                s_vra(s_vra(Some(y), hk1, 19372, 6561), hk2, -25360, 2187),
                                hk3,
                                64448,
                                6561,
                            ),
                            hk4,
                            -212,
                            729,
                        ),
                        h,
                    ) {
                        None => None,
                        Some(hk5) => match s_hk(
                            sys,
                            s_tplus(t, h, 1, 1),
                            s_vra(
                                s_vra(
                                    s_vra(
                                        s_vra(s_vra(Some(y), hk1, 9017, 3168), hk2, -355, 33),
                                        hk3,
                                        46732,
                                        5247,
                                    ),
                                    hk4,
                                    49,
                                    176,
                                ),
                                hk5,
                                -5103,
                                18656,
                            ),
                            h,
                        ) {
                            None => None,
                            Some(hk6) => match s_vra(
                                s_vra(
                                    s_vra(
                                        s_vra(s_vra(Some(y), hk1, 35, 384), hk3, 500, 1113),
                                        hk4,
                                        125,
                                        192,
                                    ),
                                    hk5,
                                    -2187,
                                    6784,
                                ),
                                hk6,
                                11,
                                84,
                            ) {
                                None => None,
                                Some(y5) => match s_hk(sys, s_tplus(t, h, 1, 1), Some(y5), h) {
                                    None => None,
                                    Some(hk7) => match s_vra(
                                        s_vra(
                                            s_vra(
                                                s_vra(
                                                    s_vra(
                                                        s_vra(
                                                            Some(State4::s_zero()),
                                                            hk1,
                                                            71,
                                                            57600,
                                                        ),
                                                        hk3,
                                                        -71,
                                                        16695,
                                                    ),
                                                    hk4,
                                                    71,
                                                    1920,
                                                ),
                                                hk5,
                                                -17253,
                                                339200,
                                            ),
                                            hk6,
                                            22,
                                            525,
                                        ),
                                        hk7,
                                        -1,
                                        40,
                                    ) {
                                        None => None,
                                        Some(err) => match s_tol_ok(err, y, atol, rtol) {
                                            None => None,
                                            Some(ok) => Some((y5, ok)),
                                        },
                                    },
                                },
                            },
                        },
                    },
                },
            },
        },
    }
}

/// The checked adaptive integration from `(t, y)` to time `b`, trying steps
/// of at most `h`: an accepted trial advances the state, a rejected one
/// halves the step size, and the budget `fuel` bounds the number of trials.
#[verifier::opaque]
pub open spec fn s_adaptive(
    sys: SystemType,
    t: Fix,
    y: State4,
    b: Fix,
    h: Fix,
    atol: Fix,
    rtol: Fix,
    fuel: nat,
) -> Option<State4>
    decreases fuel,
{
    if t@ >= b@ {
        Some(y)
    } else if fuel == 0 {
        None
    } else {
        match s_sub(b, t) {
            None => None,
            Some(span) => {
                let h1 = if h@ <= span@ {
                    h
                } else {
                    span
                };
                if h1@ <= 0 {
                    None
                } else {
                    match s_dopri_try(sys, t, y, h1, atol, rtol) {
                        None => None,
                        Some((y5, ok)) => if ok {
                            match s_add(t, h1) {
                                None => None,
                                Some(t2) => s_adaptive(
                                    sys,
                                    t2,
                                    y5,
                                    b,
                                    h1,
                                    atol,
                                    rtol,
                                    (fuel - 1) as nat,
                                ),
                            }
                        } else {
                            match s_rat(h1, 1, 2) {
                                None => None,
                                Some(h2) => s_adaptive(
                                    sys,
                                    t,
                                    y,
                                    b,
                                    h2,
                                    atol,
                                    rtol,
                                    (fuel - 1) as nat,
                                ),
                            }
                        },
                    }
                }
            },
        }
    }
}

/// The checked accumulator step of `s_vra`.
fn vra(acc: Option<State4>, v: State4, p: i64, q: i64) -> (r: Option<State4>)
    requires
        q >= 1,
    ensures
        r == s_vra(acc, v, p as int, q as int),
{
    match acc {
        None => None,
        Some(a) => a.vrat_add(v, p, q),
    }
}

/// The acceptance test of `s_tol_one` on one component.
fn tol_one(e: Fix, yv: Fix, atol: Fix, rtol: Fix) -> (r: Option<bool>)
    ensures
        r == s_tol_one(e, yv, atol, rtol),
{
    match e.abs() {
        None => None,
        Some(ae) => match yv.abs() {
            None => None,
            Some(ay) => match rtol.mul(ay) {
                None => None,
                Some(m) => match atol.add(m) {
                    None => None,
                    Some(tol) => Some(ae.v <= tol.v),
                },
            },
        },
    }
}

/// The acceptance test of `s_tol_ok` on the whole error estimate.
fn tol_ok(err: State4, y: State4, atol: Fix, rtol: Fix) -> (r: Option<bool>)
    ensures
        r == s_tol_ok(err, y, atol, rtol),
{
    match (
        tol_one(err.c0, y.c0, atol, rtol),
        tol_one(err.c1, y.c1, atol, rtol),
        tol_one(err.c2, y.c2, atol, rtol),
        tol_one(err.c3, y.c3, atol, rtol),
    ) {
        (Some(b0), Some(b1), Some(b2), Some(b3)) => Some(b0 && b1 && b2 && b3),
        _ => None,
    }
}

/// One Dormand-Prince trial step of `s_dopri_try`; `None` on fixed-point
/// overflow in any stage.
fn dopri_try(sys: &SystemType, t: Fix, y: State4, h: Fix, atol: Fix, rtol: Fix) -> (r: Option<
    (State4, bool),
>)
    ensures
        r == s_dopri_try(*sys, t, y, h, atol, rtol),
{
    proof {
        reveal(s_dopri_try);
    }
    match hk(sys, Some(t), Some(y), h) {
        None => None,
        Some(hk1) => match hk(sys, tplus(t, h, 1, 5), vra(Some(y), hk1, 1, 5), h) {
            None => None,
            Some(hk2) => match hk(
                sys,
                tplus(t, h, 3, 10),
                vra(vra(Some(y), hk1, 3, 40), hk2, 9, 40),
                h,
            ) {
                None => None,
                Some(hk3) => match hk(
                    sys,
                    tplus(t, h, 4, 5),
                    vra(vra(vra(Some(y), hk1, 44, 45), hk2, -56, 15), hk3, 32, 9),
                    h,
                ) {
                    None => None,
                    Some(hk4) => match hk(
                        sys,
                        tplus(t, h, 8, 9),
                        vra(
                            vra(vra(vra(Some(y), hk1, 19372, 6561), hk2, -25360, 2187), hk3, 64448, 6561),
                            hk4,
                            -212,
                            729,
                        ),
                        h,
                    ) {
                        None => None,
                        Some(hk5) => match hk(
                            sys,
                            tplus(t, h, 1, 1),
                            vra(
                                vra(
                                    vra(vra(vra(Some(y), hk1, 9017, 3168), hk2, -355, 33), hk3, 46732, 5247),
                                    hk4,
                                    49,
                                    176,
                                ),
                                hk5,
                                -5103,
                                18656,
                            ),
                            h,
                        ) {
                            None => None,
                            Some(hk6) => match vra(
                                vra(
                                    vra(vra(vra(Some(y), hk1, 35, 384), hk3, 500, 1113), hk4, 125, 192),
                                    hk5,
                                    -2187,
                                    6784,
                                ),
                                hk6,
                                11,
                                84,
                            ) {
                                None => None,
                                Some(y5) => match hk(sys, tplus(t, h, 1, 1), Some(y5), h) {
                                    None => None,
                                    Some(hk7) => match vra(
                                        vra(
                                            vra(
                                                vra(
                                                    vra(vra(Some(State4::zero()), hk1, 71, 57600), hk3, -71, 16695),
                                                    hk4,
                                                    71,
                                                    1920,
                                                ),
                                                hk5,
                                                -17253,
                                                339200,
                                            ),
                                            hk6,
                                            22,
                                            525,
                                        ),
                                        hk7,
                                        -1,
                                        40,
                                    ) {
                                        None => None,
                                        Some(err) => match tol_ok(err, y, atol, rtol) {
                                            None => None,
                                            Some(ok) => Some((y5, ok)),
                                        },
                                    },
                                },
                            },
                        },
                    },
                },
            },
        },
    }
}

/// The adaptive integration of `s_adaptive`; `None` on overflow, on a step
/// size underflowing to zero, or on an exhausted trial budget.
pub fn adaptive(
    sys: &SystemType,
    t: Fix,
    y: State4,
    b: Fix,
    h: Fix,
    atol: Fix,
    rtol: Fix,
    fuel: u32,
) -> (r: Option<State4>)
    ensures
        r == s_adaptive(*sys, t, y, b, h, atol, rtol, fuel as nat),
    decreases fuel,
{
    proof {
        reveal(s_adaptive);
    }
    if t.v >= b.v {
        Some(y)
    } else if fuel == 0 {
        None
    } else {
        match b.sub(t) {
            None => None,
            Some(span) => {
                let h1 = if h.v <= span.v {
                    h
                } else {
                    span
                };
                if h1.v <= 0 {
                    None
                } else {
                    match dopri_try(sys, t, y, h1, atol, rtol) {
                        None => None,
                        Some((y5, ok)) => {
                            if ok {
                                match t.add(h1) {
                                    None => None,
                                    Some(t2) => adaptive(sys, t2, y5, b, h1, atol, rtol, fuel - 1),
                                }
                            } else {
                                match h1.rat(1, 2) {
                                    None => None,
                                    Some(h2) => adaptive(sys, t, y, b, h2, atol, rtol, fuel - 1),
                                }
                            }
                        },
                    }
                }
            },
        }
    }
}

} // verus!
