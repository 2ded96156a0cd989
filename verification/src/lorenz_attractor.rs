//! The Lorenz attractor:
//! `dx/dt = sigma * (y - x)`, `dy/dt = x * (rho - z) - y`, `dz/dt = x * y - beta * z`.
//!
//! The fourth slot of the state vector keeps a zero derivative.

use vstd::prelude::*;

use crate::fixed::{s_mul, s_sub, Fix};
use crate::state::State4;

verus! {

/// The attractor's three physical constants.
#[derive(Clone, Copy, Debug, PartialEq, Eq, Structural)]
pub struct LorenzAttractor {
    pub sigma: Fix,
    pub rho: Fix,
    pub beta: Fix,
}

impl LorenzAttractor {
    /// An attractor with the given constants.
    pub fn new(sigma: Fix, rho: Fix, beta: Fix) -> (r: LorenzAttractor)
        ensures
            r == (LorenzAttractor { sigma, rho, beta }),
    {
        LorenzAttractor { sigma, rho, beta }
    }

    /// The checked derivative:
    /// `(sigma * (y1 - y0), y0 * (rho - y2) - y1, y0 * y1 - beta * y2, 0)`.
    pub open spec fn s_dydx(self, y: State4) -> Option<State4> {
        match s_sub(y.c1, y.c0) {
            None => None,
            Some(t0) => match s_mul(self.sigma, t0) {
                None => None,
                Some(d0) => match s_sub(self.rho, y.c2) {
                    None => None,
                    Some(t1) => match s_mul(y.c0, t1) {
                        None => None,
                        Some(m1) => match s_sub(m1, y.c1) {
                            None => None,
                            Some(d1) => match s_mul(y.c0, y.c1) {
                                None => None,
                                Some(m2) => match s_mul(self.beta, y.c2) {
                                    None => None,
                                    Some(m3) => match s_sub(m2, m3) {
                                        None => None,
                                        Some(d2) => Some(
                                            State4 { c0: d0, c1: d1, c2: d2, c3: Fix { v: 0 } },
                                        ),
                                    },
                                },
                            },
                        },
                    },
                },
            },
        }
    }

    /// Derivative of the state `y`; `None` on fixed-point overflow.
    pub fn dydx(&self, y: &State4) -> (r: Option<State4>)
        ensures
            r == self.s_dydx(*y),
    {
        match y.c1.sub(y.c0) {
            None => None,
            Some(t0) => match self.sigma.mul(t0) {
                None => None,
                Some(d0) => match self.rho.sub(y.c2) {
                    None => None,
                    Some(t1) => match y.c0.mul(t1) {
                        None => None,
                        Some(m1) => match m1.sub(y.c1) {
                            None => None,
                            Some(d1) => match y.c0.mul(y.c1) {
                                None => None,
                                Some(m2) => match self.beta.mul(y.c2) {
                                    None => None,
                                    Some(m3) => match m2.sub(m3) {
                                        None => None,
                                        Some(d2) => Some(
                                            State4 { c0: d0, c1: d1, c2: d2, c3: Fix { v: 0 } },
                                        ),
                                    },
                                },
                            },
                        },
                    },
                },
            },
        }
    }
}

/// At the origin the attractor's derivative is the zero vector, whatever the
/// constants and whatever the unused slot holds.
pub proof fn lemma_lorenz_equilibrium(la: LorenzAttractor, y: State4)
    requires
        y.c0@ == 0,
        y.c1@ == 0,
        y.c2@ == 0,
    ensures
        la.s_dydx(y) == Some(
            State4 { c0: Fix { v: 0 }, c1: Fix { v: 0 }, c2: Fix { v: 0 }, c3: Fix { v: 0 } },
        ),
{
    assert(la.sigma@ * 0 == 0) by (nonlinear_arith);
    assert(y.c0@ * (la.rho@ - y.c2@) == 0) by (nonlinear_arith)
        requires
            y.c0@ == 0,
    ;
    assert(y.c0@ * y.c1@ == 0) by (nonlinear_arith)
        requires
            y.c0@ == 0,
    ;
    assert(la.beta@ * y.c2@ == 0) by (nonlinear_arith)
        requires
            y.c2@ == 0,
    ;
}

} // verus!
