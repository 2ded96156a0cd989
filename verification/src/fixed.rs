//! Signed fixed-point scalars.
//!
//! A [`Fix`] holds a real number `v / SCALE` as the raw integer `v`. Every
//! operation that can leave the representable range returns `None` instead of
//! wrapping; the spec functions below state the exact raw value of every
//! result, with division truncating toward zero.

use vstd::prelude::*;

verus! {

/// Number of raw units per 1.0; the scalars have nine decimal places.
pub const SCALE: i64 = 1_000_000_000;

/// `e * SCALE`, truncated: the base of the fixed-point exponential.
pub const E_SCALED: i64 = 2_718_281_828;

/// A real number `v / SCALE`, in raw units of `1 / SCALE`.
#[derive(Clone, Copy, Debug, PartialEq, Eq, Structural)]
pub struct Fix {
    pub v: i64,
}

impl View for Fix {
    type V = int;

    open spec fn view(&self) -> int {
        self.v as int
    }
}

/// The raw value `x` fits in the representable range.
pub open spec fn fits(x: int) -> bool {
    i64::MIN <= x <= i64::MAX
}

/// The scalar whose raw value is `x` (meaningful when `fits(x)`).
pub open spec fn fx(x: int) -> Fix {
    Fix { v: x as i64 }
}

/// Range-checked construction: the scalar with raw value `x`, or `None`.
pub open spec fn chk(x: int) -> Option<Fix> {
    if fits(x) {
        Some(fx(x))
    } else {
        None
    }
}

pub open spec fn abs_int(a: int) -> int {
    if a >= 0 {
        a
    } else {
        -a
    }
}

pub open spec fn min_int(a: int, b: int) -> int {
    if a <= b {
        a
    } else {
        b
    }
}

/// Integer division truncating toward zero (what the raw arithmetic uses).
pub open spec fn div_trunc(a: int, b: int) -> int
    recommends
        b != 0,
{
    let q = abs_int(a) / abs_int(b);
    if (a >= 0) == (b >= 0) {
        q
    } else {
        -q
    }
}

/// Raw value of the checked sum.
pub open spec fn s_add(a: Fix, b: Fix) -> Option<Fix> {
    chk(a@ + b@)
}

/// Raw value of the checked difference.
pub open spec fn s_sub(a: Fix, b: Fix) -> Option<Fix> {
    chk(a@ - b@)
}

/// Raw value of the checked negation.
pub open spec fn s_neg(a: Fix) -> Option<Fix> {
    chk(-a@)
}

/// Raw value of the checked absolute value.
pub open spec fn s_abs(a: Fix) -> Option<Fix> {
    chk(abs_int(a@))
}

/// Raw value of the checked fixed-point product `a * b / SCALE`.
pub open spec fn s_mul(a: Fix, b: Fix) -> Option<Fix> {
    chk(div_trunc(a@ * b@, SCALE as int))
}

/// Raw value of the checked rational scaling `a * p / q`.
pub open spec fn s_rat(a: Fix, p: int, q: int) -> Option<Fix>
    recommends
        q >= 1,
{
    chk(div_trunc(a@ * p, q))
}

/// Raw value of the checked fixed-point quotient `a * SCALE / b`.
pub open spec fn s_div(a: Fix, b: Fix) -> Option<Fix> {
    if b@ == 0 {
        None
    } else {
        chk(div_trunc(a@ * (SCALE as int), b@))
    }
}

impl Fix {
    /// The scalar with raw value `v`, that is the real number `v / SCALE`.
    pub fn new(v: i64) -> (r: Fix)
        ensures
            r@ == v as int,
    {
        Fix { v }
    }

    /// Checked addition.
    pub fn add(self, o: Fix) -> (r: Option<Fix>)
        ensures
            r == s_add(self, o),
    {
        match self.v.checked_add(o.v) {
            Some(v) => Some(Fix { v }),
            None => None,
        }
    }

    /// Checked subtraction.
    pub fn sub(self, o: Fix) -> (r: Option<Fix>)
        ensures
            r == s_sub(self, o),
    {
        match self.v.checked_sub(o.v) {
            Some(v) => Some(Fix { v }),
            None => None,
        }
    }

    /// Checked negation.
    pub fn neg(self) -> (r: Option<Fix>)
        ensures
            r == s_neg(self),
    {
        if self.v == i64::MIN {
            None
        } else {
            Some(Fix { v: -self.v })
        }
    }

    /// Checked absolute value.
    pub fn abs(self) -> (r: Option<Fix>)
        ensures
            r == s_abs(self),
    {
        if self.v >= 0 {
            Some(self)
        } else if self.v == i64::MIN {
            None
        } else {
            Some(Fix { v: -self.v })
        }
    }

    /// The smaller of the two scalars.
    pub fn min_of(self, o: Fix) -> (r: Fix)
        ensures
            r@ == min_int(self@, o@),
    {
        if self.v <= o.v {
            self
        } else {
            o
        }
    }

    /// Checked fixed-point multiplication: `self * o / SCALE`, truncated.
    pub fn mul(self, o: Fix) -> (r: Option<Fix>)
        ensures
            r == s_mul(self, o),
    {
        let a = self.v as i128;
        let b = o.v as i128;
        assert(i128::MIN < a * b <= i128::MAX) by (nonlinear_arith)
            requires
                -0x8000_0000_0000_0000 <= a <= 0x7fff_ffff_ffff_ffff,
                -0x8000_0000_0000_0000 <= b <= 0x7fff_ffff_ffff_ffff,
        ;
        div_i128(a * b, SCALE)
    }

    /// Checked rational scaling: `self * p / q`, truncated.
    pub fn rat(self, p: i64, q: i64) -> (r: Option<Fix>)
        requires
            q >= 1,
        ensures
            r == s_rat(self, p as int, q as int),
    {
        let a = self.v as i128;
        let b = p as i128;
        assert(i128::MIN < a * b <= i128::MAX) by (nonlinear_arith)
            requires
                -0x8000_0000_0000_0000 <= a <= 0x7fff_ffff_ffff_ffff,
                -0x8000_0000_0000_0000 <= b <= 0x7fff_ffff_ffff_ffff,
        ;
        div_i128(a * b, q)
    }

    /// Checked fixed-point division: `self * SCALE / o`, truncated; `None`
    /// when `o` is zero.
    pub fn div(self, o: Fix) -> (r: Option<Fix>)
        ensures
            r == s_div(self, o),
    {
        if o.v == 0 {
            None
        } else {
            let a = self.v as i128;
            let b = SCALE as i128;
            assert(i128::MIN < a * b <= i128::MAX) by (nonlinear_arith)
                requires
                    -0x8000_0000_0000_0000 <= a <= 0x7fff_ffff_ffff_ffff,
                    0 <= b <= 0x7fff_ffff_ffff_ffff,
            ;
            div_i128(a * b, o.v)
        }
    }
}

/// Highest number of whole units the exponential accepts before it reports
/// overflow (`e^31` already exceeds the representable range).
pub const EXP_MAX_WHOLE: u64 = 30;

/// Number of series terms the exponential sums on the fractional part; the
/// first neglected term is below one raw unit.
pub const EXP_TERMS: i64 = 12;

/// The series tail: given the term of index `k - 1` and the sum of the terms
/// before `k`, the checked sum of the remaining terms up to `EXP_TERMS`, each
/// term being the previous one times `r / (SCALE * k)`.
pub open spec fn s_exp_series(r: Fix, k: int, term: Fix, acc: Fix) -> Option<Fix>
    recommends
        1 <= k,
    decreases EXP_TERMS + 1 - k,
{
    if k > EXP_TERMS {
        Some(acc)
    } else {
        match s_mul(term, r) {
            None => None,
            Some(t1) => match s_rat(t1, 1, k) {
                None => None,
                Some(t2) => match s_add(acc, t2) {
                    None => None,
                    Some(a2) => s_exp_series(r, k + 1, t2, a2),
                },
            },
        }
    }
}

/// The checked power `e^n` in raw units: `SCALE` for `n <= 0`, otherwise the
/// previous power times `E_SCALED / SCALE`.
pub open spec fn s_exp_int(n: int) -> Option<Fix>
    decreases n,
{
    if n <= 0 {
        Some(Fix { v: SCALE })
    } else {
        match s_exp_int(n - 1) {
            None => None,
            Some(p) => s_mul(p, Fix { v: E_SCALED }),
        }
    }
}

/// The checked exponential of a non-negative scalar: `e^n * series(r)` where
/// `n` and `r` are the whole and fractional parts; `None` past
/// `EXP_MAX_WHOLE` whole units or on overflow.
pub open spec fn s_exp_pos(x: Fix) -> Option<Fix>
    recommends
        x@ >= 0,
{
    let n = x@ / (SCALE as int);
    let r = x@ % (SCALE as int);
    if n > EXP_MAX_WHOLE {
        None
    } else {
        match s_exp_int(n) {
            None => None,
            Some(en) => match s_exp_series(fx(r), 1, Fix { v: SCALE }, Fix { v: SCALE }) {
                None => None,
                Some(sr) => s_mul(en, sr),
            },
        }
    }
}

/// The checked exponential. A negative argument goes through the reciprocal
/// of `s_exp_pos`; where that one overflows, the result underflows to zero.
pub open spec fn s_exp(x: Fix) -> Option<Fix> {
    if x@ >= 0 {
        s_exp_pos(x)
    } else if x@ == i64::MIN {
        Some(Fix { v: 0 })
    } else {
        match s_exp_pos(fx(-x@)) {
            None => Some(Fix { v: 0 }),
            Some(p) => if p@ <= 0 {
                None
            } else {
                chk(div_trunc((SCALE as int) * (SCALE as int), p@))
            },
        }
    }
}

impl Fix {
    /// Checked fixed-point exponential `e^self`, by whole-unit powers of
    /// `E_SCALED` and a truncated series on the fractional part.
    pub fn exp(self) -> (r: Option<Fix>)
        ensures
            r == s_exp(self),
    {
        if self.v >= 0 {
            self.exp_pos()
        } else if self.v == i64::MIN {
            Some(Fix { v: 0 })
        } else {
            match (Fix { v: -self.v }).exp_pos() {
                None => Some(Fix { v: 0 }),
                Some(p) => {
                    if p.v <= 0 {
                        None
                    } else {
                        let num: i128 = (SCALE as i128) * (SCALE as i128);
                        div_i128(num, p.v)
                    }
                },
            }
        }
    }

    /// The exponential on the non-negative range.
    fn exp_pos(self) -> (r: Option<Fix>)
        requires
            self.v >= 0,
        ensures
            r == s_exp_pos(self),
    {
        let xv = self.v as u64;
        let n = xv / (SCALE as u64);
        let rem = xv % (SCALE as u64);
        if n > EXP_MAX_WHOLE {
            None
        } else {
            match exp_int(n as i64) {
                None => None,
                Some(en) => {
                    let one = Fix { v: SCALE };
                    match exp_series(Fix { v: rem as i64 }, 1, one, one) {
                        None => None,
                        Some(sr) => en.mul(sr),
                    }
                },
            }
        }
    }
}

/// The power `e^n` of the whole part.
fn exp_int(n: i64) -> (r: Option<Fix>)
    requires
        0 <= n <= EXP_MAX_WHOLE,
    ensures
        r == s_exp_int(n as int),
    decreases n,
{
    if n <= 0 {
        Some(Fix { v: SCALE })
    } else {
        match exp_int(n - 1) {
            None => None,
            Some(p) => p.mul(Fix { v: E_SCALED }),
        }
    }
}

/// The series sum on the fractional part, from term index `k` on.
fn exp_series(r: Fix, k: i64, term: Fix, acc: Fix) -> (res: Option<Fix>)
    requires
        1 <= k,
    ensures
        res == s_exp_series(r, k as int, term, acc),
    decreases EXP_TERMS + 1 - k,
{
    if k > EXP_TERMS {
        Some(acc)
    } else {
        match term.mul(r) {
            None => None,
            Some(t1) => match t1.rat(1, k) {
                None => None,
                Some(t2) => match acc.add(t2) {
                    None => None,
                    Some(a2) => exp_series(r, k + 1, t2, a2),
                },
            },
        }
    }
}

/// Range-checked truncating division of a wide raw product by a nonzero raw
/// divisor.
fn div_i128(p: i128, d: i64) -> (r: Option<Fix>)
    requires
        d != 0,
        p > i128::MIN,
    ensures
        r == chk(div_trunc(p as int, d as int)),
{
    let pm: u128 = if p < 0 {
        (-p) as u128
    } else {
        p as u128
    };
    let dm: u128 = if d < 0 {
        (-(d as i128)) as u128
    } else {
        d as u128
    };
    let q: u128 = pm / dm;
    assert(pm as int == abs_int(p as int));
    assert(dm as int == abs_int(d as int));
    if (p < 0) == (d < 0) {
        if q <= i64::MAX as u128 {
            Some(Fix { v: q as i64 })
        } else {
            None
        }
    } else {
        if q <= i64::MAX as u128 {
            Some(Fix { v: -(q as i64) })
        } else if q == i64::MAX as u128 + 1 {
            Some(Fix { v: i64::MIN })
        } else {
            None
        }
    }
}

} // verus!
