//! The harmonic oscillator: `dx/dt = v`, `dv/dt = -omega * x`.
//!
//! Only the first two slots of the state vector are meaningful; the other
//! two keep a zero derivative.

use vstd::prelude::*;

use crate::fixed::{s_mul, s_neg, Fix};
use crate::state::State4;

verus! {

/// The oscillator's one physical constant, the angular frequency.
#[derive(Clone, Copy, Debug, PartialEq, Eq, Structural)]
pub struct HarmonicOscillator {
    pub omega: Fix,
}

impl HarmonicOscillator {
    /// The checked derivative: `(y1, -omega * y0, 0, 0)`.
    pub open spec fn s_dydx(self, y: State4) -> Option<State4> {
        match s_mul(self.omega, y.c0) {
            None => None,
            Some(m) => match s_neg(m) {
                None => None,
                Some(d1) => Some(
                    State4 { c0: y.c1, c1: d1, c2: Fix { v: 0 }, c3: Fix { v: 0 } },
                ),
            },
        }
    }

    /// Derivative of the state `y`; `None` on fixed-point overflow.
    pub fn dydx(&self, y: &State4) -> (r: Option<State4>)
        ensures
            r == self.s_dydx(*y),
    {
        match self.omega.mul(y.c0) {
            None => None,
            Some(m) => match m.neg() {
                None => None,
                Some(d1) => Some(
                    State4 { c0: y.c1, c1: d1, c2: Fix { v: 0 }, c3: Fix { v: 0 } },
                ),
            },
        }
    }
}

/// At the rest point (position and velocity both zero) the oscillator's
/// derivative is the zero vector, whatever the frequency and whatever the
/// unused slots hold.
pub proof fn lemma_oscillator_equilibrium(osc: HarmonicOscillator, y: State4)
    requires
        y.c0@ == 0,
        y.c1@ == 0,
    ensures
        osc.s_dydx(y) == Some(
            State4 { c0: Fix { v: 0 }, c1: Fix { v: 0 }, c2: Fix { v: 0 }, c3: Fix { v: 0 } },
        ),
{
}

} // verus!
