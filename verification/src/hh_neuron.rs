//! The Hodgkin-Huxley neuron.
//!
//! The state vector holds the membrane voltage and the three gating
//! variables, `(v, m, n, h)`. The voltage obeys a conductance-based membrane
//! equation with sodium, potassium and leak currents plus a step current
//! injected only while the time lies in `[i_ext_start, i_ext_end]`; each gate
//! obeys first-order kinetics driven by the canonical voltage-dependent rate
//! functions. The two rate functions with a removable singularity take their
//! analytic limit at the exact singular voltage instead of dividing by zero.

use vstd::prelude::*;

use crate::fixed::{s_add, s_div, s_exp, s_mul, s_neg, s_rat, s_sub, Fix, SCALE};
use crate::state::State4;

verus! {

/// `0.01 * SCALE`
pub const C_0_01: i64 = 10_000_000;

/// `0.07 * SCALE`
pub const C_0_07: i64 = 70_000_000;

/// `0.1 * SCALE`
pub const C_0_1: i64 = 100_000_000;

/// `0.125 * SCALE`
pub const C_0_125: i64 = 125_000_000;

/// `2.5 * SCALE`
pub const C_2_5: i64 = 2_500_000_000;

/// `3 * SCALE`
pub const C_3: i64 = 3_000_000_000;

/// `4 * SCALE`
pub const C_4: i64 = 4_000_000_000;

/// The neuron's physical constants: the three conductances, the three
/// reversal potentials, and the externally injected step current with its
/// activity window.
#[derive(Clone, Copy, Debug, PartialEq, Eq, Structural)]
pub struct HodgkinHuxleyNeuron {
    pub g_na: Fix,
    pub g_k: Fix,
    pub g_l: Fix,
    pub e_na: Fix,
    pub e_k: Fix,
    pub e_l: Fix,
    pub i_ext_amplitude: Fix,
    pub i_ext_start: Fix,
    pub i_ext_end: Fix,
}

/// Sodium activation opening rate `(2.5 - 0.1 v) / (e^(2.5 - 0.1 v) - 1)`,
/// with the analytic limit 1 at the singular voltage where `2.5 - 0.1 v = 0`.
pub open spec fn s_alpha_m(v: Fix) -> Option<Fix> {
    match s_mul(Fix { v: C_0_1 }, v) {
        None => None,
        Some(p) => match s_sub(Fix { v: C_2_5 }, p) {
            None => None,
            Some(u) => if u@ == 0 {
                Some(Fix { v: SCALE })
            } else {
                match s_exp(u) {
                    None => None,
                    Some(e) => match s_sub(e, Fix { v: SCALE }) {
                        None => None,
                        Some(d) => s_div(u, d),
                    },
                }
            },
        },
    }
}

/// Sodium activation closing rate `4 e^(-v / 18)`.
pub open spec fn s_beta_m(v: Fix) -> Option<Fix> {
    match s_rat(v, -1, 18) {
        None => None,
        Some(t) => match s_exp(t) {
            None => None,
            Some(e) => s_mul(Fix { v: C_4 }, e),
        },
    }
}

/// Sodium inactivation opening rate `0.07 e^(-v / 20)`.
pub open spec fn s_alpha_h(v: Fix) -> Option<Fix> {
    match s_rat(v, -1, 20) {
        None => None,
        Some(t) => match s_exp(t) {
            None => None,
            Some(e) => s_mul(Fix { v: C_0_07 }, e),
        },
    }
}

/// Sodium inactivation closing rate `1 / (1 + e^(3 - 0.1 v))`.
pub open spec fn s_beta_h(v: Fix) -> Option<Fix> {
    match s_mul(Fix { v: C_0_1 }, v) {
        None => None,
        Some(p) => match s_sub(Fix { v: C_3 }, p) {
            None => None,
            Some(u) => match s_exp(u) {
                None => None,
                Some(e) => match s_add(Fix { v: SCALE }, e) {
                    None => None,
                    Some(d) => s_div(Fix { v: SCALE }, d),
                },
            },
        },
    }
}

/// Potassium activation opening rate `(0.1 - 0.01 v) / (e^(1 - 0.1 v) - 1)`,
/// with the analytic limit 0.1 at the singular voltage where `1 - 0.1 v = 0`.
pub open spec fn s_alpha_n(v: Fix) -> Option<Fix> {
    match s_mul(Fix { v: C_0_1 }, v) {
        None => None,
        Some(p) => match s_sub(Fix { v: SCALE }, p) {
            None => None,
            Some(u) => if u@ == 0 {
                Some(Fix { v: C_0_1 })
            } else {
                match s_mul(Fix { v: C_0_01 }, v) {
                    None => None,
                    Some(p2) => match s_sub(Fix { v: C_0_1 }, p2) {
                        None => None,
                        Some(num) => match s_exp(u) {
                            None => None,
                            Some(e) => match s_sub(e, Fix { v: SCALE }) {
                                None => None,
                                Some(d) => s_div(num, d),
                            },
                        },
                    },
                }
            },
        },
    }
}

/// Potassium activation closing rate `0.125 e^(-v / 80)`.
pub open spec fn s_beta_n(v: Fix) -> Option<Fix> {
    match s_rat(v, -1, 80) {
        None => None,
        Some(t) => match s_exp(t) {
            None => None,
            Some(e) => s_mul(Fix { v: C_0_125 }, e),
        },
    }
}

/// First-order gate kinetics `alpha * (1 - g) - beta * g` for a gating
/// variable `g`, checked.
pub open spec fn s_gate(alpha: Option<Fix>, beta: Option<Fix>, g: Fix) -> Option<Fix> {
    match (alpha, beta) {
        (Some(av), Some(bv)) => match s_sub(Fix { v: SCALE }, g) {
            None => None,
            Some(og) => match s_mul(av, og) {
                None => None,
                Some(p1) => match s_mul(bv, g) {
                    None => None,
                    Some(p2) => s_sub(p1, p2),
                },
            },
        },
        _ => None,
    }
}

impl HodgkinHuxleyNeuron {
    /// The injected current: the configured amplitude while the time lies in
    /// the window `[i_ext_start, i_ext_end]`, zero outside it.
    pub open spec fn s_iext(self, t: Fix) -> Fix {
        if self.i_ext_start@ <= t@ <= self.i_ext_end@ {
            self.i_ext_amplitude
        } else {
            Fix { v: 0 }
        }
    }

    /// The checked membrane equation:
    /// `-g_na m^3 h (v - e_na) - g_k n^4 (v - e_k) - g_l (v - e_l) + i_ext`.
    pub open spec fn s_dv(self, y: State4, t: Fix) -> Option<Fix> {
        let v = y.c0;
        let m = y.c1;
        let n = y.c2;
        let h = y.c3;
        match s_mul(m, m) {
            None => None,
            Some(m2) => match s_mul(m2, m) {
                None => None,
                Some(m3) => match s_mul(self.g_na, m3) {
                    None => None,
                    Some(a) => match s_mul(a, h) {
                        None => None,
                        Some(b) => match s_sub(v, self.e_na) {
                            None => None,
                            Some(sv) => match s_mul(b, sv) {
                                None => None,
                                Some(na) => match s_mul(n, n) {
                                    None => None,
                                    Some(n2) => match s_mul(n2, n2) {
                                        None => None,
                                        Some(n4) => match s_mul(self.g_k, n4) {
                                            None => None,
                                            Some(d) => match s_sub(v, self.e_k) {
                                                None => None,
                                                Some(sv2) => match s_mul(d, sv2) {
                                                    None => None,
                                                    Some(ka) => match s_sub(v, self.e_l) {
                                                        None => None,
                                                        Some(sv3) => match s_mul(self.g_l, sv3) {
                                                            None => None,
                                                            Some(le) => match s_neg(na) {
                                                                None => None,
                                                                Some(nna) => match s_sub(nna, ka) {
                                                                    None => None,
                                                                    Some(s1) => match s_sub(
                                                                        s1,
                                                                        le,
                                                                    ) {
                                                                        None => None,
                                                                        Some(s2) => s_add(
                                                                            s2,
                                                                            self.s_iext(t),
                                                                        ),
                                                                    },
                                                                },
                                                            },
                                                        },
                                                    },
                                                },
                                            },
                                        },
                                    },
                                },
                            },
                        },
                    },
                },
            },
        }
    }

    /// The checked derivative of `(v, m, n, h)` at time `t`.
    pub open spec fn s_dydx(self, y: State4, t: Fix) -> Option<State4> {
        let dv = self.s_dv(y, t);
        let dm = s_gate(s_alpha_m(y.c0), s_beta_m(y.c0), y.c1);
        let dn = s_gate(s_alpha_n(y.c0), s_beta_n(y.c0), y.c2);
        let dh = s_gate(s_alpha_h(y.c0), s_beta_h(y.c0), y.c3);
        match (dv, dm, dn, dh) {
            (Some(c0), Some(c1), Some(c2), Some(c3)) => Some(State4 { c0, c1, c2, c3 }),
            _ => None,
        }
    }

    /// Derivative of the state `y` at time `t`; `None` on fixed-point
    /// overflow or on a vanishing rate-function denominator away from the
    /// singular voltage.
    pub fn dydx(&self, y: &State4, t: Fix) -> (r: Option<State4>)
        ensures
            r == self.s_dydx(*y, t),
    {
        let dv = self.membrane_dv(y, t);
        let dm = gate(alpha_m(y.c0), beta_m(y.c0), y.c1);
        let dn = gate(alpha_n(y.c0), beta_n(y.c0), y.c2);
        let dh = gate(alpha_h(y.c0), beta_h(y.c0), y.c3);
        match (dv, dm, dn, dh) {
            (Some(c0), Some(c1), Some(c2), Some(c3)) => Some(State4 { c0, c1, c2, c3 }),
            _ => None,
        }
    }

    /// The membrane equation of `s_dv`.
    fn membrane_dv(&self, y: &State4, t: Fix) -> (r: Option<Fix>)
        ensures
            r == self.s_dv(*y, t),
    {
        let v = y.c0;
        let m = y.c1;
        let n = y.c2;
        let h = y.c3;
        let iext = if self.i_ext_start.v <= t.v && t.v <= self.i_ext_end.v {
            self.i_ext_amplitude
        } else {
            Fix { v: 0 }
        };
        match m.mul(m) {
            None => None,
            Some(m2) => match m2.mul(m) {
                None => None,
                Some(m3) => match self.g_na.mul(m3) {
                    None => None,
                    Some(a) => match a.mul(h) {
                        None => None,
                        Some(b) => match v.sub(self.e_na) {
                            None => None,
                            Some(sv) => match b.mul(sv) {
                                None => None,
                                Some(na) => match n.mul(n) {
                                    None => None,
                                    Some(n2) => match n2.mul(n2) {
                                        None => None,
                                        Some(n4) => match self.g_k.mul(n4) {
                                            None => None,
                                            Some(d) => match v.sub(self.e_k) {
                                                None => None,
                                                Some(sv2) => match d.mul(sv2) {
                                                    None => None,
                                                    Some(ka) => match v.sub(self.e_l) {
                                                        None => None,
                                                        Some(sv3) => match self.g_l.mul(sv3) {
                                                            None => None,
                                                            Some(le) => match na.neg() {
                                                                None => None,
                                                                Some(nna) => match nna.sub(ka) {
                                                                    None => None,
                                                                    Some(s1) => match s1.sub(le) {
                                                                        None => None,
                                                                        Some(s2) => s2.add(iext),
                                                                    },
                                                                },
                                                            },
                                                        },
                                                    },
                                                },
                                            },
                                        },
                                    },
                                },
                            },
                        },
                    },
                },
            },
        }
    }
}

/// Sodium activation opening rate; `None` on overflow.
pub fn alpha_m(v: Fix) -> (r: Option<Fix>)
    ensures
        r == s_alpha_m(v),
{
    match (Fix { v: C_0_1 }).mul(v) {
        None => None,
        Some(p) => match (Fix { v: C_2_5 }).sub(p) {
            None => None,
            Some(u) => if u.v == 0 {
                Some(Fix { v: SCALE })
            } else {
                match u.exp() {
                    None => None,
                    Some(e) => match e.sub(Fix { v: SCALE }) {
                        None => None,
                        Some(d) => u.div(d),
                    },
                }
            },
        },
    }
}

/// Sodium activation closing rate; `None` on overflow.
pub fn beta_m(v: Fix) -> (r: Option<Fix>)
    ensures
        r == s_beta_m(v),
{
    match v.rat(-1, 18) {
        None => None,
        Some(t) => match t.exp() {
            None => None,
            Some(e) => (Fix { v: C_4 }).mul(e),
        },
    }
}

/// Sodium inactivation opening rate; `None` on overflow.
pub fn alpha_h(v: Fix) -> (r: Option<Fix>)
    ensures
        r == s_alpha_h(v),
{
    match v.rat(-1, 20) {
        None => None,
        Some(t) => match t.exp() {
            None => None,
            Some(e) => (Fix { v: C_0_07 }).mul(e),
        },
    }
}

/// Sodium inactivation closing rate; `None` on overflow.
pub fn beta_h(v: Fix) -> (r: Option<Fix>)
    ensures
        r == s_beta_h(v),
{
    match (Fix { v: C_0_1 }).mul(v) {
        None => None,
        Some(p) => match (Fix { v: C_3 }).sub(p) {
            None => None,
            Some(u) => match u.exp() {
                None => None,
                Some(e) => match (Fix { v: SCALE }).add(e) {
                    None => None,
                    Some(d) => (Fix { v: SCALE }).div(d),
                },
            },
        },
    }
}

/// Potassium activation opening rate; `None` on overflow.
pub fn alpha_n(v: Fix) -> (r: Option<Fix>)
    ensures
        r == s_alpha_n(v),
{
    match (Fix { v: C_0_1 }).mul(v) {
        None => None,
        Some(p) => match (Fix { v: SCALE }).sub(p) {
            None => None,
            Some(u) => if u.v == 0 {
                Some(Fix { v: C_0_1 })
            } else {
                match (Fix { v: C_0_01 }).mul(v) {
                    None => None,
                    Some(p2) => match (Fix { v: C_0_1 }).sub(p2) {
                        None => None,
                        Some(num) => match u.exp() {
                            None => None,
                            Some(e) => match e.sub(Fix { v: SCALE }) {
                                None => None,
                                Some(d) => num.div(d),
                            },
                        },
                    },
                }
            },
        },
    }
}

/// Potassium activation closing rate; `None` on overflow.
pub fn beta_n(v: Fix) -> (r: Option<Fix>)
    ensures
        r == s_beta_n(v),
{
    match v.rat(-1, 80) {
        None => None,
        Some(t) => match t.exp() {
            None => None,
            Some(e) => (Fix { v: C_0_125 }).mul(e),
        },
    }
}

/// First-order gate kinetics of `s_gate`; `None` on overflow.
fn gate(alpha: Option<Fix>, beta: Option<Fix>, g: Fix) -> (r: Option<Fix>)
    ensures
        r == s_gate(alpha, beta, g),
{
    match (alpha, beta) {
        (Some(av), Some(bv)) => match (Fix { v: SCALE }).sub(g) {
            None => None,
            Some(og) => match av.mul(og) {
                None => None,
                Some(p1) => match bv.mul(g) {
                    None => None,
                    Some(p2) => p1.sub(p2),
                },
            },
        },
        _ => None,
    }
}

/// At a time outside the injection window the neuron's derivative equals the
/// derivative of the same neuron with the external-current amplitude forced
/// to zero, for every state.
pub proof fn lemma_quiescent_outside_window(hh: HodgkinHuxleyNeuron, y: State4, t: Fix)
    requires
        t@ < hh.i_ext_start@ || t@ > hh.i_ext_end@,
    ensures
        hh.s_dydx(y, t) == (HodgkinHuxleyNeuron {
            i_ext_amplitude: Fix { v: 0 },
            ..hh
        }).s_dydx(y, t),
{
    let zeroed = HodgkinHuxleyNeuron { i_ext_amplitude: Fix { v: 0 }, ..hh };
    assert(hh.s_iext(t) == zeroed.s_iext(t));
}

} // verus!
