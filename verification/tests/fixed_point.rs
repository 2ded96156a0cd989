use diffeq_sim::fixed::{Fix, SCALE};

fn raw(x: f64) -> i64 {
    (x * SCALE as f64).round() as i64
}

fn to_f64(f: Fix) -> f64 {
    f.v as f64 / SCALE as f64
}

#[test]
fn add_exact() {
    let a = Fix { v: raw(1.5) };
    let b = Fix { v: raw(2.25) };
    assert_eq!(a.add(b).unwrap().v, raw(3.75));
}

#[test]
fn add_overflow_is_none() {
    let a = Fix { v: i64::MAX };
    let b = Fix { v: 1 };
    assert!(a.add(b).is_none());
}

#[test]
fn sub_exact() {
    let a = Fix { v: raw(1.0) };
    let b = Fix { v: raw(2.5) };
    assert_eq!(a.sub(b).unwrap().v, raw(-1.5));
}

#[test]
fn mul_truncates_toward_zero() {
    let a = Fix { v: raw(1.5) };
    let b = Fix { v: raw(2.0) };
    assert_eq!(a.mul(b).unwrap().v, raw(3.0));
    // 1 raw unit times 0.1: the exact product is 0.1 raw units, truncated to 0.
    let tiny = Fix { v: 1 };
    let tenth = Fix { v: raw(0.1) };
    assert_eq!(tiny.mul(tenth).unwrap().v, 0);
    let neg = Fix { v: -1 };
    assert_eq!(neg.mul(tenth).unwrap().v, 0);
}

#[test]
fn mul_overflow_is_none() {
    let a = Fix { v: raw(4_000_000_000.0) };
    assert!(a.mul(a).is_none());
}

#[test]
fn div_exact_and_by_zero() {
    let a = Fix { v: raw(1.0) };
    let b = Fix { v: raw(3.0) };
    assert_eq!(a.div(b).unwrap().v, 333_333_333);
    assert!(a.div(Fix { v: 0 }).is_none());
    let c = Fix { v: raw(-1.0) };
    assert_eq!(c.div(b).unwrap().v, -333_333_333);
}

#[test]
fn rat_scaling() {
    let a = Fix { v: raw(0.9) };
    assert_eq!(a.rat(-1, 18).unwrap().v, raw(-0.05));
    assert_eq!(a.rat(2, 6).unwrap().v, raw(0.3));
}

#[test]
fn neg_abs_min() {
    let a = Fix { v: raw(-2.5) };
    assert_eq!(a.neg().unwrap().v, raw(2.5));
    assert_eq!(a.abs().unwrap().v, raw(2.5));
    assert!(Fix { v: i64::MIN }.neg().is_none());
    assert!(Fix { v: i64::MIN }.abs().is_none());
    let b = Fix { v: raw(1.0) };
    assert_eq!(a.min_of(b), a);
    assert_eq!(b.min_of(a), a);
}

#[test]
fn exp_zero_is_one() {
    assert_eq!((Fix { v: 0 }).exp().unwrap().v, SCALE);
}

#[test]
fn exp_one_is_e() {
    let e = (Fix { v: SCALE }).exp().unwrap();
    assert!((to_f64(e) - std::f64::consts::E).abs() < 1e-6);
}

#[test]
fn exp_fractional() {
    let r = (Fix { v: raw(0.5) }).exp().unwrap();
    assert!((to_f64(r) - 0.5f64.exp()).abs() < 1e-6);
    let r = (Fix { v: raw(3.25) }).exp().unwrap();
    assert!((to_f64(r) - 3.25f64.exp()).abs() < 1e-5);
}

#[test]
fn exp_negative() {
    let r = (Fix { v: raw(-1.0) }).exp().unwrap();
    assert!((to_f64(r) - (-1.0f64).exp()).abs() < 1e-6);
    let r = (Fix { v: raw(-12.5) }).exp().unwrap();
    assert!((to_f64(r) - (-12.5f64).exp()).abs() < 1e-6);
}

#[test]
fn exp_overflow_is_none() {
    // e^25 is above the representable range.
    assert!((Fix { v: raw(25.0) }).exp().is_none());
    assert!((Fix { v: raw(40.0) }).exp().is_none());
}

#[test]
fn exp_underflows_to_zero() {
    assert_eq!((Fix { v: raw(-40.0) }).exp().unwrap().v, 0);
    assert_eq!((Fix { v: i64::MIN }).exp().unwrap().v, 0);
}
