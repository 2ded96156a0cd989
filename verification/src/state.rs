//! The four-slot state vector.
//!
//! Every model shares one fixed-size vector of four fixed-point components;
//! a model that needs fewer slots leaves the rest at zero. The vector
//! operations are the checked, componentwise lifts of the scalar ones.

use vstd::prelude::*;

use crate::fixed::{s_add, s_mul, s_rat, Fix};

verus! {

/// A state vector: one fixed-point scalar per slot.
#[derive(Clone, Copy, Debug, PartialEq, Eq, Structural)]
pub struct State4 {
    pub c0: Fix,
    pub c1: Fix,
    pub c2: Fix,
    pub c3: Fix,
}

/// Componentwise checked scaling by a fixed-point factor.
pub open spec fn s_vmul(a: State4, f: Fix) -> Option<State4> {
    match (s_mul(a.c0, f), s_mul(a.c1, f), s_mul(a.c2, f), s_mul(a.c3, f)) {
        (Some(c0), Some(c1), Some(c2), Some(c3)) => Some(State4 { c0, c1, c2, c3 }),
        _ => None,
    }
}

/// One component of a scaled accumulation: `a + v * p / q`, checked.
pub open spec fn s_rat_add(a: Fix, v: Fix, p: int, q: int) -> Option<Fix>
    recommends
        q >= 1,
{
    match s_rat(v, p, q) {
        None => None,
        Some(t) => s_add(a, t),
    }
}

/// Componentwise checked scaled accumulation: `a + v * p / q`.
pub open spec fn s_vrat_add(a: State4, v: State4, p: int, q: int) -> Option<State4>
    recommends
        q >= 1,
{
    match (
        s_rat_add(a.c0, v.c0, p, q),
        s_rat_add(a.c1, v.c1, p, q),
        s_rat_add(a.c2, v.c2, p, q),
        s_rat_add(a.c3, v.c3, p, q),
    ) {
        (Some(c0), Some(c1), Some(c2), Some(c3)) => Some(State4 { c0, c1, c2, c3 }),
        _ => None,
    }
}

impl State4 {
    /// The zero vector, as a spec value.
    pub open spec fn s_zero() -> State4 {
        State4 { c0: Fix { v: 0 }, c1: Fix { v: 0 }, c2: Fix { v: 0 }, c3: Fix { v: 0 } }
    }

    /// The zero vector.
    pub fn zero() -> (r: State4)
        ensures
            r == (State4 {
                c0: Fix { v: 0 },
                c1: Fix { v: 0 },
                c2: Fix { v: 0 },
                c3: Fix { v: 0 },
            }),
    {
        let z = Fix { v: 0 };
        State4 { c0: z, c1: z, c2: z, c3: z }
    }

    /// Checked componentwise scaling by a fixed-point factor.
    pub fn vmul(self, f: Fix) -> (r: Option<State4>)
        ensures
            r == s_vmul(self, f),
    {
        match (self.c0.mul(f), self.c1.mul(f), self.c2.mul(f), self.c3.mul(f)) {
            (Some(c0), Some(c1), Some(c2), Some(c3)) => Some(State4 { c0, c1, c2, c3 }),
            _ => None,
        }
    }

    /// Checked componentwise scaled accumulation: `self + o * p / q`.
    pub fn vrat_add(self, o: State4, p: i64, q: i64) -> (r: Option<State4>)
        requires
            q >= 1,
        ensures
            r == s_vrat_add(self, o, p as int, q as int),
    {
        let r0 = rat_add(self.c0, o.c0, p, q);
        let r1 = rat_add(self.c1, o.c1, p, q);
        let r2 = rat_add(self.c2, o.c2, p, q);
        let r3 = rat_add(self.c3, o.c3, p, q);
        match (r0, r1, r2, r3) {
            (Some(c0), Some(c1), Some(c2), Some(c3)) => Some(State4 { c0, c1, c2, c3 }),
            _ => None,
        }
    }
}

/// One component of `vrat_add`.
fn rat_add(a: Fix, v: Fix, p: i64, q: i64) -> (r: Option<Fix>)
    requires
        q >= 1,
    ensures
        r == s_rat_add(a, v, p as int, q as int),
{
    match v.rat(p, q) {
        None => None,
        Some(t) => a.add(t),
    }
}

} // verus!
