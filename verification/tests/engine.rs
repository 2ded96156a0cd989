use diffeq_sim::conf_parse::{
    Config, HarmonicOscillatorSystem, HodgkinHuxleySystem, LorenzAttractorSystem, Simulation,
};
use diffeq_sim::errors::SimError;
use diffeq_sim::fixed::{Fix, SCALE};
use diffeq_sim::solver::{pacing_sleep, Solver};
use ode_solvers::{Rk4, System, Vector4};

fn fxv(x: f64) -> Fix {
    Fix { v: (x * SCALE as f64).round() as i64 }
}

fn f64_of(f: Fix) -> f64 {
    f.v as f64 / SCALE as f64
}

fn config(problem: &str, solver: &str, timesteps: usize, dt: f64) -> Config {
    Config {
        simulation: Simulation {
            timesteps,
            dt: fxv(dt),
            solver: solver.to_string(),
            rtol: fxv(1e-6),
            atol: fxv(1e-6),
            realtime_delay: 0,
            diffeq_problem: problem.to_string(),
            show_plot: false,
        },
        harmonic_oscillator: HarmonicOscillatorSystem { omega: fxv(1.0) },
        hodgkin_huxley: HodgkinHuxleySystem {
            g_na: fxv(120.0),
            g_k: fxv(36.0),
            g_l: fxv(0.3),
            e_na: fxv(115.0),
            e_k: fxv(-12.0),
            e_l: fxv(10.6),
            i_ext_amplitude: fxv(10.0),
            i_ext_start: fxv(100.0),
            i_ext_end: fxv(200.0),
            v0: fxv(0.0),
            m0: fxv(0.05),
            n0: fxv(0.32),
            h0: fxv(0.6),
        },
        lorenz_attractor: LorenzAttractorSystem {
            sigma: fxv(10.0),
            rho: fxv(28.0),
            beta: fxv(8.0 / 3.0),
            x0: fxv(1.0),
            y0: fxv(1.0),
            z0: fxv(1.0),
        },
    }
}

#[test]
fn unknown_model_is_fatal() {
    let r = Solver::new(&config("van_der_pol", "runge_kutta_4", 10, 0.01));
    assert!(matches!(r, Err(SimError::UnknownModel)));
}

#[test]
fn non_positive_step_is_fatal() {
    let r = Solver::new(&config("harmonic_oscillator", "runge_kutta_4", 10, 0.0));
    assert!(matches!(r, Err(SimError::NonPositiveStep)));
}

#[test]
fn oversized_time_range_is_fatal() {
    let mut c = config("harmonic_oscillator", "runge_kutta_4", usize::MAX, 0.0);
    c.simulation.dt = Fix { v: i64::MAX / 4 };
    let r = Solver::new(&c);
    assert!(matches!(r, Err(SimError::TimeOverflow)));
}

#[test]
fn unknown_solver_is_fatal_at_call_time() {
    let mut s = Solver::new(&config("harmonic_oscillator", "euler", 10, 0.01)).unwrap();
    assert!(matches!(s.step(), Err(SimError::UnknownSolver)));
    assert!(s.times.is_empty() && s.trajectory.is_empty());
    assert!(matches!(s.solve(), Err(SimError::UnknownSolver)));
    assert!(s.times.is_empty() && s.trajectory.is_empty());
}

#[test]
fn step_seeds_and_grows_one_sample_per_call() {
    let mut s = Solver::new(&config("harmonic_oscillator", "runge_kutta_4", 10, 0.01)).unwrap();
    assert_eq!(s.times.len(), 0);
    for n in 1..=5usize {
        s.step().unwrap();
        // N calls from fresh give N + 1 samples, the seeded point included.
        assert_eq!(s.times.len(), n + 1);
        assert_eq!(s.trajectory.len(), n + 1);
    }
    for i in 0..s.times.len() - 1 {
        let inc = s.times[i + 1].v - s.times[i].v;
        assert!(inc > 0);
        assert!(inc <= s.dt.v);
    }
    assert!(s.times[s.times.len() - 1].v <= s.t_end.v);
    assert_eq!(s.times[0].v, 0);
    assert_eq!(s.trajectory[0].c0.v, SCALE);
    assert_eq!(s.trajectory[0].c1.v, 0);
}

#[test]
fn step_is_a_no_op_past_t_end() {
    let mut s = Solver::new(&config("harmonic_oscillator", "runge_kutta_4", 3, 0.01)).unwrap();
    for _ in 0..10 {
        s.step().unwrap();
    }
    assert_eq!(s.times.len(), 4);
    let times_before = s.times.clone();
    let traj_before = s.trajectory.clone();
    s.step().unwrap();
    assert_eq!(s.times, times_before);
    assert_eq!(s.trajectory, traj_before);
    assert_eq!(s.times[3].v, s.t_end.v);
}

#[test]
fn solve_matches_repeated_steps_fixed_step() {
    let c = config("lorenz_attractor", "runge_kutta_4", 50, 0.01);
    let mut batch = Solver::new(&c).unwrap();
    batch.solve().unwrap();
    let mut incremental = Solver::new(&c).unwrap();
    for _ in 0..60 {
        incremental.step().unwrap();
    }
    assert_eq!(batch.times.len(), 51);
    assert_eq!(batch.times, incremental.times);
    assert_eq!(batch.trajectory, incremental.trajectory);
}

#[test]
fn solve_matches_repeated_steps_adaptive() {
    let c = config("harmonic_oscillator", "dopri5", 40, 0.05);
    let mut batch = Solver::new(&c).unwrap();
    batch.solve().unwrap();
    let mut incremental = Solver::new(&c).unwrap();
    for _ in 0..45 {
        incremental.step().unwrap();
    }
    assert_eq!(batch.times.len(), 41);
    assert_eq!(batch.times, incremental.times);
    assert_eq!(batch.trajectory, incremental.trajectory);
}

#[test]
fn oscillator_closed_orbit_fixed_step() {
    // One full period of the unit oscillator: the state returns to (1, 0).
    let c = config("harmonic_oscillator", "runge_kutta_4", 628, 0.01);
    let mut s = Solver::new(&c).unwrap();
    s.solve().unwrap();
    let last = s.trajectory[s.trajectory.len() - 1];
    assert!((f64_of(last.c0) - 1.0).abs() < 0.05);
    assert!(f64_of(last.c1).abs() < 0.05);
}

#[test]
fn oscillator_closed_orbit_adaptive() {
    let c = config("harmonic_oscillator", "dopri5", 628, 0.01);
    let mut s = Solver::new(&c).unwrap();
    s.solve().unwrap();
    let last = s.trajectory[s.trajectory.len() - 1];
    assert!((f64_of(last.c0) - 1.0).abs() < 0.05);
    assert!(f64_of(last.c1).abs() < 0.05);
}

struct LorenzRef {
    sigma: f64,
    rho: f64,
    beta: f64,
}

impl System<f64, Vector4<f64>> for LorenzRef {
    fn system(&self, _t: f64, y: &Vector4<f64>, dy: &mut Vector4<f64>) {
        dy[0] = self.sigma * (y[1] - y[0]);
        dy[1] = y[0] * (self.rho - y[2]) - y[1];
        dy[2] = y[0] * y[1] - self.beta * y[2];
        dy[3] = 0.0;
    }
}

#[test]
fn lorenz_tracks_reference_trajectory() {
    let c = config("lorenz_attractor", "runge_kutta_4", 100, 0.01);
    let mut s = Solver::new(&c).unwrap();
    s.solve().unwrap();
    assert_eq!(s.trajectory.len(), 101);

    let reference = LorenzRef { sigma: 10.0, rho: 28.0, beta: 8.0 / 3.0 };
    let y0 = Vector4::new(1.0, 1.0, 1.0, 0.0);
    let mut solver = Rk4::new(reference, 0.0, y0, 1.0, 0.01);
    solver.integrate().unwrap();
    let ref_out = solver.y_out();
    assert!(ref_out.len() >= 101);

    // The first step must match the Runge-Kutta blend almost exactly; over
    // the chaotic-but-deterministic early stretch the fixed-point trajectory
    // stays close to the floating-point reference.
    assert!((f64_of(s.trajectory[1].c0) - ref_out[1][0]).abs() < 1e-6);
    for k in 0..=100usize {
        for i in 0..3usize {
            let ours = match i {
                0 => f64_of(s.trajectory[k].c0),
                1 => f64_of(s.trajectory[k].c1),
                _ => f64_of(s.trajectory[k].c2),
            };
            assert!((ours - ref_out[k][i]).abs() < 1e-2);
        }
    }
}

#[test]
fn neuron_quiet_outside_current_window() {
    // The external current window [100, 200] lies beyond t_end = 0.5, so the
    // trajectory equals the one with the amplitude forced to zero.
    let c_with = config("hodgkin_huxley", "runge_kutta_4", 50, 0.01);
    let mut c_zero = config("hodgkin_huxley", "runge_kutta_4", 50, 0.01);
    c_zero.hodgkin_huxley.i_ext_amplitude = fxv(0.0);
    let mut a = Solver::new(&c_with).unwrap();
    let mut b = Solver::new(&c_zero).unwrap();
    a.solve().unwrap();
    b.solve().unwrap();
    assert_eq!(a.times, b.times);
    assert_eq!(a.trajectory, b.trajectory);
}

#[test]
fn numerical_overflow_is_reported_and_commits_nothing() {
    let mut c = config("lorenz_attractor", "runge_kutta_4", 10, 0.01);
    c.lorenz_attractor.sigma = Fix { v: i64::MAX / 2 };
    c.lorenz_attractor.x0 = Fix { v: i64::MAX / 2 };
    c.lorenz_attractor.y0 = Fix { v: i64::MIN / 2 };
    let mut s = Solver::new(&c).unwrap();
    assert!(matches!(s.step(), Err(SimError::Numerical)));
    assert!(s.times.is_empty() && s.trajectory.is_empty());
    assert!(matches!(s.solve(), Err(SimError::Numerical)));
    assert!(s.times.is_empty() && s.trajectory.is_empty());
}

#[test]
fn state_labels_follow_the_model() {
    let s = Solver::new(&config("harmonic_oscillator", "runge_kutta_4", 1, 0.01)).unwrap();
    assert_eq!(s.state_labels, vec!["x (m)", "v (m/s)", "unused", "unused"]);
    let s = Solver::new(&config("hodgkin_huxley", "runge_kutta_4", 1, 0.01)).unwrap();
    assert_eq!(s.state_labels, vec!["V (mV/nF)", "m (nA)", "n (nA)", "h (nA)"]);
    let s = Solver::new(&config("lorenz_attractor", "runge_kutta_4", 1, 0.01)).unwrap();
    assert_eq!(s.state_labels, vec!["x", "y", "z", "unused"]);
}

#[test]
fn pacing_floor() {
    assert_eq!(pacing_sleep(3, 10), 7);
    assert_eq!(pacing_sleep(10, 10), 0);
    assert_eq!(pacing_sleep(25, 10), 0);
    assert_eq!(pacing_sleep(0, 0), 0);
}

#[test]
fn error_messages() {
    assert_eq!(SimError::UnknownModel.message(), "unknown model identifier");
    assert_eq!(SimError::UnknownSolver.message(), "unknown strategy identifier");
    assert_eq!(SimError::NonPositiveStep.message(), "step size must be positive");
    assert_eq!(SimError::Numerical.message(), "integration step failed numerically");
}

#[test]
fn zero_timesteps_only_seeds() {
    let mut s = Solver::new(&config("harmonic_oscillator", "runge_kutta_4", 0, 0.01)).unwrap();
    assert_eq!(s.t_end.v, 0);
    s.step().unwrap();
    assert_eq!(s.times.len(), 1);
    assert_eq!(s.times[0].v, 0);
    assert_eq!(s.trajectory[0].c0.v, SCALE);
    s.step().unwrap();
    assert_eq!(s.times.len(), 1);
}

#[test]
fn solve_replaces_a_grown_trajectory() {
    let c = config("harmonic_oscillator", "runge_kutta_4", 5, 0.01);
    let mut s = Solver::new(&c).unwrap();
    s.step().unwrap();
    s.step().unwrap();
    assert_eq!(s.times.len(), 3);
    s.solve().unwrap();
    assert_eq!(s.times.len(), 6);
    let first = s.times.clone();
    s.solve().unwrap();
    assert_eq!(s.times, first);
}
