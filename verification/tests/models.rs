use diffeq_sim::fixed::{Fix, SCALE};
use diffeq_sim::harmonic_oscillator::HarmonicOscillator;
use diffeq_sim::hh_neuron::{alpha_h, alpha_m, alpha_n, beta_h, beta_m, beta_n, HodgkinHuxleyNeuron};
use diffeq_sim::lorenz_attractor::LorenzAttractor;
use diffeq_sim::state::State4;

fn fxr(x: f64) -> Fix {
    Fix { v: (x * SCALE as f64).round() as i64 }
}

fn val(f: Fix) -> f64 {
    f.v as f64 / SCALE as f64
}

fn vec4(a: f64, b: f64, c: f64, d: f64) -> State4 {
    State4 { c0: fxr(a), c1: fxr(b), c2: fxr(c), c3: fxr(d) }
}

#[test]
fn oscillator_equilibrium_has_zero_derivative() {
    let osc = HarmonicOscillator { omega: fxr(3.7) };
    let dy = osc.dydx(&vec4(0.0, 0.0, 0.0, 0.0)).unwrap();
    assert_eq!(dy, vec4(0.0, 0.0, 0.0, 0.0));
}

#[test]
fn oscillator_derivative_exact() {
    let osc = HarmonicOscillator { omega: fxr(2.0) };
    let dy = osc.dydx(&vec4(1.0, 0.5, 0.0, 0.0)).unwrap();
    assert_eq!(dy.c0.v, fxr(0.5).v);
    assert_eq!(dy.c1.v, fxr(-2.0).v);
    assert_eq!(dy.c2.v, 0);
    assert_eq!(dy.c3.v, 0);
}

#[test]
fn lorenz_equilibrium_has_zero_derivative() {
    let la = LorenzAttractor::new(fxr(10.0), fxr(28.0), fxr(8.0 / 3.0));
    let dy = la.dydx(&vec4(0.0, 0.0, 0.0, 0.0)).unwrap();
    assert_eq!(dy, vec4(0.0, 0.0, 0.0, 0.0));
}

#[test]
fn lorenz_derivative_exact() {
    // beta = 8/3 computed in fixed point, truncating.
    let beta = fxr(8.0).div(fxr(3.0)).unwrap();
    assert_eq!(beta.v, 2_666_666_666);
    let la = LorenzAttractor::new(fxr(10.0), fxr(28.0), beta);
    let dy = la.dydx(&vec4(1.0, 1.0, 1.0, 0.0)).unwrap();
    // dx = 10 * (1 - 1), dy = 1 * (28 - 1) - 1, dz = 1 * 1 - beta * 1
    assert_eq!(dy.c0.v, 0);
    assert_eq!(dy.c1.v, fxr(26.0).v);
    assert_eq!(dy.c2.v, SCALE - 2_666_666_666);
    assert_eq!(dy.c3.v, 0);
}

#[test]
fn rate_alpha_m_limit_at_singular_voltage() {
    // 2.5 - 0.1 v vanishes at v = 25: the analytic limit of u / (e^u - 1) is 1.
    assert_eq!(alpha_m(fxr(25.0)).unwrap().v, SCALE);
}

#[test]
fn rate_alpha_n_limit_at_singular_voltage() {
    // 1 - 0.1 v vanishes at v = 10: the analytic limit is 0.1.
    assert_eq!(alpha_n(fxr(10.0)).unwrap().v, SCALE / 10);
}

#[test]
fn rate_functions_at_zero_voltage() {
    assert_eq!(beta_m(fxr(0.0)).unwrap().v, fxr(4.0).v);
    assert_eq!(alpha_h(fxr(0.0)).unwrap().v, fxr(0.07).v);
    assert_eq!(beta_n(fxr(0.0)).unwrap().v, fxr(0.125).v);
    let bh = val(beta_h(fxr(0.0)).unwrap());
    assert!((bh - 1.0 / (1.0 + 3.0f64.exp())).abs() < 1e-6);
    let am = val(alpha_m(fxr(0.0)).unwrap());
    assert!((am - 2.5 / (2.5f64.exp() - 1.0)).abs() < 1e-6);
    let an = val(alpha_n(fxr(0.0)).unwrap());
    assert!((an - 0.1 / (1.0f64.exp() - 1.0)).abs() < 1e-6);
}

fn neuron(amplitude: f64) -> HodgkinHuxleyNeuron {
    HodgkinHuxleyNeuron {
        g_na: fxr(120.0),
        g_k: fxr(36.0),
        g_l: fxr(0.3),
        e_na: fxr(115.0),
        e_k: fxr(-12.0),
        e_l: fxr(10.6),
        i_ext_amplitude: fxr(amplitude),
        i_ext_start: fxr(10.0),
        i_ext_end: fxr(20.0),
    }
}

#[test]
fn neuron_current_inside_window() {
    let y = vec4(0.0, 0.05, 0.32, 0.6);
    let with = neuron(7.0).dydx(&y, fxr(15.0)).unwrap();
    let without = neuron(0.0).dydx(&y, fxr(15.0)).unwrap();
    assert_eq!(with.c0.v - without.c0.v, fxr(7.0).v);
    assert_eq!(with.c1, without.c1);
    assert_eq!(with.c2, without.c2);
    assert_eq!(with.c3, without.c3);
}

#[test]
fn neuron_current_outside_window_matches_zero_amplitude() {
    let y = vec4(3.0, 0.05, 0.32, 0.6);
    for t in [0.0, 9.999_999, 20.000_001, 50.0] {
        let with = neuron(7.0).dydx(&y, fxr(t)).unwrap();
        let without = neuron(0.0).dydx(&y, fxr(t)).unwrap();
        assert_eq!(with, without);
    }
}

#[test]
fn neuron_derivative_matches_reference_formula() {
    let y = vec4(0.0, 0.05, 0.32, 0.6);
    let dy = neuron(0.0).dydx(&y, fxr(0.0)).unwrap();
    let (v, m, n, h) = (0.0f64, 0.05f64, 0.32f64, 0.6f64);
    let dv = -120.0 * m.powi(3) * h * (v - 115.0) - 36.0 * n.powi(4) * (v + 12.0) - 0.3 * (v
        - 10.6);
    let am = 2.5 / (2.5f64.exp() - 1.0);
    let bm = 4.0;
    let an = 0.1 / (1.0f64.exp() - 1.0);
    let bn = 0.125;
    let ah = 0.07;
    let bh = 1.0 / (1.0 + 3.0f64.exp());
    assert!((val(dy.c0) - dv).abs() < 1e-5);
    assert!((val(dy.c1) - (am * (1.0 - m) - bm * m)).abs() < 1e-6);
    assert!((val(dy.c2) - (an * (1.0 - n) - bn * n)).abs() < 1e-6);
    assert!((val(dy.c3) - (ah * (1.0 - h) - bh * h)).abs() < 1e-6);
}
