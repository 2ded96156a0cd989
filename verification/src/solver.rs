//! The simulation engine: the model sum type, the validated configuration,
//! and the solver that grows a trajectory either incrementally (`step`) or in
//! one batch (`solve`).

use vstd::prelude::*;

use crate::conf_parse::Config;
use crate::dopri5::{s_adaptive, ADAPT_FUEL};
use crate::errors::SimError;
use crate::fixed::{fx, min_int, Fix, SCALE};
use crate::harmonic_oscillator::HarmonicOscillator;
use crate::hh_neuron::HodgkinHuxleyNeuron;
use crate::lorenz_attractor::LorenzAttractor;
use crate::rk4::s_rk4_step;
use crate::state::State4;

verus! {

/// The closed set of differential-equation models.
#[derive(Clone, Copy, Debug, PartialEq, Eq, Structural)]
pub enum SystemType {
    HarmonicOscillator(HarmonicOscillator),
    HodgkinHuxley(HodgkinHuxleyNeuron),
    LorenzAttractor(LorenzAttractor),
}

impl SystemType {
    /// The checked derivative of the selected model at time `t`.
    pub open spec fn s_system(self, t: Fix, y: State4) -> Option<State4> {
        match self {
            SystemType::HarmonicOscillator(ho) => ho.s_dydx(y),
            SystemType::HodgkinHuxley(hh) => hh.s_dydx(y, t),
            SystemType::LorenzAttractor(la) => la.s_dydx(y),
        }
    }

    /// Derivative of the state `y` at time `t`, dispatched to the selected
    /// model; `None` on fixed-point overflow.
    pub fn system(&self, t: Fix, y: &State4) -> (r: Option<State4>)
        ensures
            r == self.s_system(t, *y),
    {
        match self {
            SystemType::HarmonicOscillator(ho) => ho.dydx(y),
            SystemType::HodgkinHuxley(hh) => hh.dydx(y, t),
            SystemType::LorenzAttractor(la) => la.dydx(y),
        }
    }
}

/// The strategy identifier names one of the two integration strategies.
pub open spec fn s_known_solver(s: Seq<char>) -> bool {
    s == "dopri5"@ || s == "runge_kutta_4"@
}

/// The model selected by the configured identifier, or `None` for an
/// unrecognized one.
pub open spec fn s_model_of(c: Config) -> Option<SystemType> {
    if c.simulation.diffeq_problem@ == "harmonic_oscillator"@ {
        Some(SystemType::HarmonicOscillator(HarmonicOscillator { omega: c.harmonic_oscillator.omega }))
    } else if c.simulation.diffeq_problem@ == "hodgkin_huxley"@ {
        Some(
            SystemType::HodgkinHuxley(
                HodgkinHuxleyNeuron {
                    g_na: c.hodgkin_huxley.g_na,
                    g_k: c.hodgkin_huxley.g_k,
                    g_l: c.hodgkin_huxley.g_l,
                    e_na: c.hodgkin_huxley.e_na,
                    e_k: c.hodgkin_huxley.e_k,
                    e_l: c.hodgkin_huxley.e_l,
                    i_ext_amplitude: c.hodgkin_huxley.i_ext_amplitude,
                    i_ext_start: c.hodgkin_huxley.i_ext_start,
                    i_ext_end: c.hodgkin_huxley.i_ext_end,
                },
            ),
        )
    } else if c.simulation.diffeq_problem@ == "lorenz_attractor"@ {
        Some(
            SystemType::LorenzAttractor(
                LorenzAttractor {
                    sigma: c.lorenz_attractor.sigma,
                    rho: c.lorenz_attractor.rho,
                    beta: c.lorenz_attractor.beta,
                },
            ),
        )
    } else {
        None
    }
}

/// The documented per-variant initial condition: the oscillator starts at
/// `(1, 0)`, the neuron and the attractor at their configured initial values.
pub open spec fn s_init_of(c: Config) -> State4 {
    if c.simulation.diffeq_problem@ == "harmonic_oscillator"@ {
        State4 { c0: Fix { v: SCALE }, c1: Fix { v: 0 }, c2: Fix { v: 0 }, c3: Fix { v: 0 } }
    } else if c.simulation.diffeq_problem@ == "hodgkin_huxley"@ {
        State4 {
            c0: c.hodgkin_huxley.v0,
            c1: c.hodgkin_huxley.m0,
            c2: c.hodgkin_huxley.n0,
            c3: c.hodgkin_huxley.h0,
        }
    } else {
        State4 {
            c0: c.lorenz_attractor.x0,
            c1: c.lorenz_attractor.y0,
            c2: c.lorenz_attractor.z0,
            c3: Fix { v: 0 },
        }
    }
}

/// The simulation engine. It owns the selected model, the immutable
/// integration configuration, and the growing trajectory: `times[j]` and
/// `trajectory[j]` form the `j`-th recorded sample.
#[derive(Clone, Debug)]
pub struct Solver {
    pub system: SystemType,
    pub t0: Fix,
    pub t_end: Fix,
    pub dt: Fix,
    pub y0: State4,
    pub rtol: Fix,
    pub atol: Fix,
    pub trajectory: Vec<State4>,
    pub times: Vec<Fix>,
    pub solver_type: String,
    pub state_labels: Vec<String>,
    pub realtime_delay: u64,
}

impl Solver {
    /// Number of macro steps of size `dt` from `t0 = 0` to `t_end`.
    pub open spec fn steps(self) -> int {
        self.t_end@ / self.dt@
    }

    /// One macro step of the selected strategy from time `t` (in raw units)
    /// and state `y` to `min(t + dt, t_end)`.
    pub open spec fn s_macro(self, t: int, y: State4) -> Option<State4> {
        if !s_known_solver(self.solver_type@) {
            None
        } else {
            let nt = min_int(t + self.dt@, self.t_end@);
            if self.solver_type@ == "dopri5"@ {
                s_adaptive(
                    self.system,
                    fx(t),
                    y,
                    fx(nt),
                    self.dt,
                    self.atol,
                    self.rtol,
                    ADAPT_FUEL as nat,
                )
            } else {
                s_rk4_step(self.system, fx(t), y, fx(nt - t))
            }
        }
    }

    /// The `k`-th trajectory sample: the initial condition for `k = 0`, and
    /// one macro step from the previous sample otherwise.
    pub open spec fn s_sample(self, k: int) -> Option<State4>
        decreases k,
    {
        if k <= 0 {
            Some(self.y0)
        } else {
            match self.s_sample(k - 1) {
                None => None,
                Some(y) => self.s_macro((k - 1) * self.dt@, y),
            }
        }
    }

    /// Well-formedness: the configuration is validated (`t0 = 0`, a positive
    /// step, a whole number of steps up to `t_end`, headroom for one more
    /// step), the two trajectory columns have equal length, the recorded
    /// times are exactly `0, dt, 2 dt, ...`, and every recorded state is the
    /// sample the configuration determines.
    pub open spec fn wf(self) -> bool {
        &&& self.t0@ == 0
        &&& self.dt@ >= 1
        &&& self.t_end@ >= 0
        &&& self.t_end@ % self.dt@ == 0
        &&& self.t_end@ + self.dt@ <= i64::MAX
        &&& self.times@.len() == self.trajectory@.len()
        &&& self.times@.len() <= self.steps() + 1
        &&& forall|j: int|
            0 <= j < self.times@.len() ==> #[trigger] self.times@[j] == fx(j * self.dt@)
        &&& forall|j: int|
            0 <= j < self.trajectory@.len() ==> self.s_sample(j) == Some(
                #[trigger] self.trajectory@[j],
            )
    }

    /// An engine over the validated configuration: the selected model with
    /// its documented initial condition, an empty trajectory, and
    /// `t_end = timesteps * dt`. An unrecognized model identifier, a
    /// non-positive step and a time range past the fixed-point scale are the
    /// configuration errors, in that order of detection.
    pub fn new(config: &Config) -> (r: Result<Solver, SimError>)
        ensures
            match r {
                Ok(s) => {
                    &&& s_model_of(*config) is Some
                    &&& config.simulation.dt@ >= 1
                    &&& (config.simulation.timesteps as int) * config.simulation.dt@
                        + config.simulation.dt@ <= i64::MAX
                    &&& s.system == s_model_of(*config).unwrap()
                    &&& s.t0@ == 0
                    &&& s.dt == config.simulation.dt
                    &&& s.t_end@ == (config.simulation.timesteps as int) * config.simulation.dt@
                    &&& s.y0 == s_init_of(*config)
                    &&& s.rtol == config.simulation.rtol
                    &&& s.atol == config.simulation.atol
                    &&& s.solver_type@ == config.simulation.solver@
                    &&& s.realtime_delay == config.simulation.realtime_delay
                    &&& s.trajectory@.len() == 0
                    &&& s.times@.len() == 0
                    &&& s.steps() == config.simulation.timesteps
                    &&& s.state_labels@.len() == 4
                    &&& s.wf()
                },
                Err(e) => {
                    &&& (e == SimError::UnknownModel <==> s_model_of(*config) is None)
                    &&& (e == SimError::NonPositiveStep <==> s_model_of(*config) is Some
                        && config.simulation.dt@ < 1)
                    &&& (e == SimError::TimeOverflow <==> s_model_of(*config) is Some
                        && config.simulation.dt@ >= 1 && (config.simulation.timesteps as int)
                        * config.simulation.dt@ + config.simulation.dt@ > i64::MAX)
                },
            },
            r is Err <==> (s_model_of(*config) is None || config.simulation.dt@ < 1 || (
            config.simulation.timesteps as int) * config.simulation.dt@ + config.simulation.dt@
                > i64::MAX),
    {
        let is_ho = config.simulation.diffeq_problem == "harmonic_oscillator".to_owned();
        let is_hh = config.simulation.diffeq_problem == "hodgkin_huxley".to_owned();
        let is_la = config.simulation.diffeq_problem == "lorenz_attractor".to_owned();
        if !is_ho && !is_hh && !is_la {
            return Err(SimError::UnknownModel);
        }
        let dt = config.simulation.dt;
        if dt.v < 1 {
            return Err(SimError::NonPositiveStep);
        }
        proof {
            assert((config.simulation.timesteps as i128) * (dt.v as i128) <= i128::MAX
                && (config.simulation.timesteps as i128) * (dt.v as i128) >= 0)
                by (nonlinear_arith)
                requires
                    0 <= (config.simulation.timesteps as i128) < 0x1_0000_0000_0000_0000,
                    1 <= (dt.v as i128) <= 0x7fff_ffff_ffff_ffff,
            ;
        }
        let prod: i128 = (config.simulation.timesteps as i128) * (dt.v as i128);
        if prod > (i64::MAX as i128) - (dt.v as i128) {
            return Err(SimError::TimeOverflow);
        }
        let t_end = Fix { v: prod as i64 };
        let (system, y0) = if is_ho {
            (
                SystemType::HarmonicOscillator(
                    HarmonicOscillator { omega: config.harmonic_oscillator.omega },
                ),
                State4 {
                    c0: Fix { v: SCALE },
                    c1: Fix { v: 0 },
                    c2: Fix { v: 0 },
                    c3: Fix { v: 0 },
                },
            )
        } else if is_hh {
            (
                SystemType::HodgkinHuxley(
                    HodgkinHuxleyNeuron {
                        g_na: config.hodgkin_huxley.g_na,
                        g_k: config.hodgkin_huxley.g_k,
                        g_l: config.hodgkin_huxley.g_l,
                        e_na: config.hodgkin_huxley.e_na,
                        e_k: config.hodgkin_huxley.e_k,
                        e_l: config.hodgkin_huxley.e_l,
                        i_ext_amplitude: config.hodgkin_huxley.i_ext_amplitude,
                        i_ext_start: config.hodgkin_huxley.i_ext_start,
                        i_ext_end: config.hodgkin_huxley.i_ext_end,
                    },
                ),
                State4 {
                    c0: config.hodgkin_huxley.v0,
                    c1: config.hodgkin_huxley.m0,
                    c2: config.hodgkin_huxley.n0,
                    c3: config.hodgkin_huxley.h0,
                },
            )
        } else {
            (
                SystemType::LorenzAttractor(
                    LorenzAttractor {
                        sigma: config.lorenz_attractor.sigma,
                        rho: config.lorenz_attractor.rho,
                        beta: config.lorenz_attractor.beta,
                    },
                ),
                State4 {
                    c0: config.lorenz_attractor.x0,
                    c1: config.lorenz_attractor.y0,
                    c2: config.lorenz_attractor.z0,
                    c3: Fix { v: 0 },
                },
            )
        };
        let state_labels = if is_ho {
            labels4("x (m)", "v (m/s)", "unused", "unused")
        } else if is_hh {
            labels4("V (mV/nF)", "m (nA)", "n (nA)", "h (nA)")
        } else {
            labels4("x", "y", "z", "unused")
        };
        proof {
            vstd::arithmetic::div_mod::lemma_mod_multiples_basic(
                config.simulation.timesteps as int,
                dt.v as int,
            );
            vstd::arithmetic::div_mod::lemma_div_multiples_vanish(
                config.simulation.timesteps as int,
                dt.v as int,
            );
        }
        Ok(
            Solver {
                system,
                t0: Fix { v: 0 },
                t_end,
                dt,
                y0,
                rtol: config.simulation.rtol,
                atol: config.simulation.atol,
                trajectory: Vec::new(),
                times: Vec::new(),
                solver_type: config.simulation.solver.clone(),
                state_labels,
                realtime_delay: config.simulation.realtime_delay,
            },
        )
    }
}

/// Trajectory length after one `step` call, given the length before it:
/// an empty trajectory is seeded and, unless the run is already over,
/// extended by the first sample; a live one grows by one sample; a terminal
/// one is left alone.
pub open spec fn s_len_after_step(n: int, steps: int) -> int {
    if n == 0 {
        if steps <= 0 {
            1
        } else {
            2
        }
    } else if n - 1 < steps {
        n + 1
    } else {
        n
    }
}

/// Trajectory length after `c` `step` calls on a fresh engine.
pub open spec fn s_len_after_calls(c: nat, steps: int) -> int
    decreases c,
{
    if c == 0 {
        0
    } else {
        s_len_after_step(s_len_after_calls((c - 1) as nat, steps), steps)
    }
}

/// Integrating the same configuration is deterministic: two engines that
/// share the model, the step size, the end time, the initial condition, the
/// tolerances and the strategy identifier produce the same sample at every
/// index, whatever their trajectories hold. In particular a batch `solve`
/// and a run of repeated `step` calls agree exactly at every matching time
/// sample, for either strategy.
pub proof fn lemma_same_config_same_samples(a: Solver, b: Solver, k: int)
    requires
        a.system == b.system,
        a.dt == b.dt,
        a.t_end == b.t_end,
        a.y0 == b.y0,
        a.rtol == b.rtol,
        a.atol == b.atol,
        a.solver_type@ == b.solver_type@,
    ensures
        a.s_sample(k) == b.s_sample(k),
    decreases k,
{
    if k > 0 {
        lemma_same_config_same_samples(a, b, k - 1);
    }
}

/// The shape of the recorded times in a well-formed engine: they increase
/// strictly, two consecutive samples lie at most `dt` apart, and no recorded
/// time passes `t_end`.
pub proof fn lemma_trajectory_time_shape(s: Solver, j: int)
    requires
        s.wf(),
        0 <= j < s.times@.len(),
    ensures
        j >= 1 ==> s.times@[j - 1]@ < s.times@[j]@,
        j >= 1 ==> s.times@[j]@ - s.times@[j - 1]@ <= s.dt@,
        s.times@[j]@ <= s.t_end@,
{
    let dtg = s.dt@;
    let steps = s.steps();
    vstd::arithmetic::div_mod::lemma_fundamental_div_mod(s.t_end@, dtg);
    assert(j <= steps);
    vstd::arithmetic::mul::lemma_mul_inequality(j, steps, dtg);
    assert(j * dtg >= 0) by (nonlinear_arith)
        requires
            j >= 0,
            dtg >= 1,
    ;
    assert(s.times@[j]@ == j * dtg);
    if j >= 1 {
        assert((j - 1) * dtg >= 0 && (j - 1) * dtg == j * dtg - dtg) by (nonlinear_arith)
            requires
                j >= 1,
                dtg >= 1,
        ;
        assert(s.times@[j - 1]@ == (j - 1) * dtg);
    }
}

/// After at least one `step` call on a fresh engine, the trajectory holds
/// one sample more than the number of calls, until the run is over and the
/// length stays pinned at `steps + 1`: the seeded initial point plus one
/// point per productive call.
pub proof fn lemma_step_count(c: nat, steps: int)
    requires
        steps >= 0,
        c >= 1,
    ensures
        s_len_after_calls(c, steps) == if c <= steps {
            c + 1int
        } else {
            steps + 1int
        },
    decreases c,
{
    reveal_with_fuel(s_len_after_calls, 2);
    if c > 1 {
        lemma_step_count((c - 1) as nat, steps);
    }
}

impl Solver {
    /// One incremental step: seed an empty trajectory with `(t0, y0)`, and
    /// unless the last recorded time has reached `t_end`, integrate from it
    /// over one macro step and append exactly one sample at
    /// `min(last + dt, t_end)`. At or past `t_end` the call is a no-op, and
    /// on any error nothing at all changes: either the whole step commits or
    /// none of it does.
    #[verifier::rlimit(60)]
    pub fn step(&mut self) -> (r: Result<(), SimError>)
        requires
            old(self).wf(),
        ensures
            final(self).wf(),
            final(self).system == old(self).system,
            final(self).t0 == old(self).t0,
            final(self).t_end == old(self).t_end,
            final(self).dt == old(self).dt,
            final(self).y0 == old(self).y0,
            final(self).rtol == old(self).rtol,
            final(self).atol == old(self).atol,
            final(self).solver_type == old(self).solver_type,
            final(self).state_labels == old(self).state_labels,
            final(self).realtime_delay == old(self).realtime_delay,
            ({
                let n = old(self).times@.len() as int;
                let m: int = if n == 0 {
                    1int
                } else {
                    n
                };
                let steps = old(self).steps();
                &&& (r is Ok <==> m - 1 >= steps || (s_known_solver(old(self).solver_type@)
                    && old(self).s_sample(m) is Some))
                &&& (r is Ok ==> final(self).times@.len() == s_len_after_step(n, steps))
                &&& (n > 0 && m - 1 >= steps ==> r is Ok && *final(self) == *old(self))
                &&& (r is Err ==> *final(self) == *old(self))
                &&& (m - 1 < steps && !s_known_solver(old(self).solver_type@) ==> r == Err::<
                    (),
                    SimError,
                >(SimError::UnknownSolver))
                &&& (m - 1 < steps && s_known_solver(old(self).solver_type@) && old(self).s_sample(
                    m,
                ) is None ==> r == Err::<(), SimError>(SimError::Numerical))
            }),
    {
        let n = self.times.len();
        let ghost m: int = if n == 0 {
            1int
        } else {
            n as int
        };
        let ghost steps = self.steps();
        let ghost dtg = self.dt@;
        let ghost t_im1 = (m - 1) * dtg;
        let last_t: Fix = if n == 0 {
            Fix { v: 0 }
        } else {
            self.times[n - 1]
        };
        let last_y: State4 = if n == 0 {
            self.y0
        } else {
            self.trajectory[n - 1]
        };
        proof {
            vstd::arithmetic::div_mod::lemma_fundamental_div_mod(self.t_end@, dtg);
            assert(self.t_end@ == steps * dtg);
            assert(m - 1 <= steps);
            vstd::arithmetic::mul::lemma_mul_inequality(m - 1, steps, dtg);
            assert(t_im1 >= 0) by (nonlinear_arith)
                requires
                    m - 1 >= 0,
                    dtg >= 1,
                    t_im1 == (m - 1) * dtg,
            ;
            assert(last_t@ == t_im1);
            assert(last_t == fx(t_im1));
            assert(old(self).s_sample(m - 1) == Some(last_y));
        }
        if last_t.v >= self.t_end.v {
            proof {
                vstd::arithmetic::mul::lemma_mul_inequality_converse(steps, m - 1, dtg);
                assert(m - 1 >= steps);
            }
            if n == 0 {
                proof {
                    vstd::arithmetic::div_mod::lemma_div_basics_1(dtg);
                    assert(steps == 0);
                }
                self.times.push(Fix { v: 0 });
                self.trajectory.push(self.y0);
                proof {
                    assert(self.times@[0] == fx(0 * dtg));
                    assert(self.s_sample(0) == Some(self.y0));
                }
            }
            return Ok(());
        }
        proof {
            vstd::arithmetic::mul::lemma_mul_inequality_converse(m - 1, steps, dtg);
            assert(m - 1 < steps);
        }
        let is_dop = self.solver_type == "dopri5".to_owned();
        let is_rk = self.solver_type == "runge_kutta_4".to_owned();
        if !is_dop && !is_rk {
            return Err(SimError::UnknownSolver);
        }
        let sum = last_t.add(self.dt).unwrap();
        let nt = sum.min_of(self.t_end);
        proof {
            assert(nt@ == min_int(t_im1 + dtg, self.t_end@));
            assert(nt == fx(min_int(t_im1 + dtg, self.t_end@)));
        }
        let res: Option<State4> = if is_dop {
            crate::dopri5::adaptive(
                &self.system,
                last_t,
                last_y,
                nt,
                self.dt,
                self.atol,
                self.rtol,
                ADAPT_FUEL,
            )
        } else {
            let h = nt.sub(last_t).unwrap();
            proof {
                assert(h == fx(min_int(t_im1 + dtg, self.t_end@) - t_im1));
            }
            crate::rk4::rk4_step(&self.system, last_t, last_y, h)
        };
        proof {
            assert(res == old(self).s_macro(t_im1, last_y));
            assert(old(self).s_sample(m) == res);
        }
        match res {
            None => Err(SimError::Numerical),
            Some(ynew) => {
                if n == 0 {
                    self.times.push(Fix { v: 0 });
                    self.trajectory.push(self.y0);
                }
                self.times.push(nt);
                self.trajectory.push(ynew);
                proof {
                    assert(m * dtg - dtg == (m - 1) * dtg) by (nonlinear_arith);
                    assert(m * dtg - dtg == t_im1);
                    vstd::arithmetic::mul::lemma_mul_inequality(m, steps, dtg);
                    assert(nt@ == m * dtg);
                    assert forall|j: int| 0 <= j < self.trajectory@.len() implies self.s_sample(j)
                        == Some(self.trajectory@[j]) by {
                        lemma_same_config_same_samples(*self, *old(self), j);
                        if n == 0 {
                            assert(self.trajectory@ =~= seq![old(self).y0, ynew]);
                        }
                    }
                    assert forall|j: int| 0 <= j < self.times@.len() implies self.times@[j] == fx(
                        j * dtg,
                    ) by {
                        if j == self.times@.len() - 1 {
                            assert(self.times@[j] == nt);
                        } else if n == 0 {
                            assert(self.times@[j] == Fix { v: 0 });
                            assert(j == 0);
                        } else {
                            assert(self.times@[j] == old(self).times@[j]);
                        }
                    }
                }
                Ok(())
            },
        }
    }
}

impl Solver {
    /// The full batch run over `[0, t_end]`: the complete columns of times
    /// and states, computed without touching the engine; `Err` exactly when
    /// some sample fails numerically.
    fn run_batch(&self) -> (r: Result<(Vec<Fix>, Vec<State4>), SimError>)
        requires
            self.wf(),
            s_known_solver(self.solver_type@),
        ensures
            match r {
                Ok(tv) => {
                    &&& tv.0@.len() == self.steps() + 1
                    &&& tv.1@.len() == self.steps() + 1
                    &&& forall|j: int|
                        0 <= j < tv.0@.len() ==> #[trigger] tv.0@[j] == fx(j * self.dt@)
                    &&& forall|j: int|
                        0 <= j < tv.1@.len() ==> self.s_sample(j) == Some(#[trigger] tv.1@[j])
                },
                Err(e) => e == SimError::Numerical,
            },
            r is Ok <==> (forall|k: int|
                0 <= k <= self.steps() ==> #[trigger] self.s_sample(k) is Some),
    {
        let ghost steps = self.steps();
        let ghost dtg = self.dt@;
        let mut ts: Vec<Fix> = Vec::new();
        let mut ys: Vec<State4> = Vec::new();
        ts.push(Fix { v: 0 });
        ys.push(self.y0);
        proof {
            vstd::arithmetic::div_mod::lemma_fundamental_div_mod(self.t_end@, dtg);
            vstd::arithmetic::div_mod::lemma_div_basics_4(self.t_end@, dtg);
            assert(ts@[0] == fx(0 * dtg));
        }
        while ts[ts.len() - 1].v < self.t_end.v
            invariant
                self.wf(),
                s_known_solver(self.solver_type@),
                steps == self.steps(),
                dtg == self.dt@,
                self.t_end@ == steps * dtg,
                1 <= ts@.len() <= steps + 1,
                ts@.len() == ys@.len(),
                forall|j: int| 0 <= j < ts@.len() ==> #[trigger] ts@[j] == fx(j * dtg),
                forall|j: int|
                    0 <= j < ys@.len() ==> self.s_sample(j) == Some(#[trigger] ys@[j]),
            decreases steps + 1 - ts@.len(),
        {
            let n = ts.len();
            let ghost t_nm1 = (n - 1) * dtg;
            let last_t = ts[n - 1];
            let last_y = ys[n - 1];
            proof {
                assert(n - 1 <= steps);
                vstd::arithmetic::mul::lemma_mul_inequality(n - 1, steps, dtg);
                assert(t_nm1 >= 0) by (nonlinear_arith)
                    requires
                        n >= 1,
                        dtg >= 1,
                        t_nm1 == (n - 1) * dtg,
                ;
                assert(last_t@ == t_nm1);
                assert(n - 1 < steps);
                vstd::arithmetic::mul::lemma_mul_inequality(n as int, steps, dtg);
                assert((n as int) * dtg - dtg == (n - 1) * dtg) by (nonlinear_arith);
            }
            let sum = last_t.add(self.dt).unwrap();
            let nt = sum.min_of(self.t_end);
            proof {
                assert(nt@ == (n as int) * dtg);
                assert(nt == fx(min_int(t_nm1 + dtg, self.t_end@)));
            }
            let is_dop = self.solver_type == "dopri5".to_owned();
            let res: Option<State4> = if is_dop {
                crate::dopri5::adaptive(
                    &self.system,
                    last_t,
                    last_y,
                    nt,
                    self.dt,
                    self.atol,
                    self.rtol,
                    ADAPT_FUEL,
                )
            } else {
                let h = nt.sub(last_t).unwrap();
                proof {
                    assert(h == fx(min_int(t_nm1 + dtg, self.t_end@) - t_nm1));
                }
                crate::rk4::rk4_step(&self.system, last_t, last_y, h)
            };
            proof {
                assert(res == self.s_macro(t_nm1, last_y));
                assert(self.s_sample(n as int) == res);
            }
            match res {
                None => {
                    proof {
                        assert(self.s_sample(n as int) is None);
                        assert(!(forall|k: int|
                            0 <= k <= steps ==> #[trigger] self.s_sample(k) is Some)) by {
                            assert(0 <= n as int <= steps && !(self.s_sample(n as int) is Some));
                        }
                    }
                    return Err(SimError::Numerical);
                },
                Some(ynew) => {
                    ts.push(nt);
                    ys.push(ynew);
                },
            }
        }
        proof {
            let n = ts@.len() as int;
            assert(n - 1 <= steps);
            vstd::arithmetic::mul::lemma_mul_inequality(n - 1, steps, dtg);
            assert((n - 1) * dtg >= 0) by (nonlinear_arith)
                requires
                    n >= 1,
                    dtg >= 1,
            ;
            assert(ts@[n - 1]@ == (n - 1) * dtg);
            vstd::arithmetic::mul::lemma_mul_inequality_converse(steps, n - 1, dtg);
            assert(n == steps + 1);
            assert forall|k: int| 0 <= k <= steps implies #[trigger] self.s_sample(k) is Some by {
                assert(self.s_sample(k) == Some(ys@[k]));
            }
        }
        Ok((ts, ys))
    }

    /// The batch run: integrate the whole interval `[t0, t_end]` with the
    /// selected strategy and replace the trajectory with the complete output
    /// sequence, one sample per macro step. The strategy identifier is
    /// validated up front; on any error the trajectory is left exactly as it
    /// was.
    pub fn solve(&mut self) -> (r: Result<(), SimError>)
        requires
            old(self).wf(),
        ensures
            final(self).wf(),
            final(self).system == old(self).system,
            final(self).t0 == old(self).t0,
            final(self).t_end == old(self).t_end,
            final(self).dt == old(self).dt,
            final(self).y0 == old(self).y0,
            final(self).rtol == old(self).rtol,
            final(self).atol == old(self).atol,
            final(self).solver_type == old(self).solver_type,
            final(self).state_labels == old(self).state_labels,
            final(self).realtime_delay == old(self).realtime_delay,
            ({
                let steps = old(self).steps();
                &&& (r is Ok <==> s_known_solver(old(self).solver_type@) && (forall|k: int|
                    0 <= k <= steps ==> #[trigger] old(self).s_sample(k) is Some))
                &&& (r is Ok ==> final(self).times@.len() == steps + 1)
                &&& (r is Err ==> *final(self) == *old(self))
                &&& (!s_known_solver(old(self).solver_type@) ==> r == Err::<(), SimError>(
                    SimError::UnknownSolver,
                ))
                &&& (s_known_solver(old(self).solver_type@) && !(forall|k: int|
                    0 <= k <= steps ==> #[trigger] old(self).s_sample(k) is Some) ==> r == Err::<
                    (),
                    SimError,
                >(SimError::Numerical))
            }),
    {
        let is_dop = self.solver_type == "dopri5".to_owned();
        let is_rk = self.solver_type == "runge_kutta_4".to_owned();
        if !is_dop && !is_rk {
            return Err(SimError::UnknownSolver);
        }
        match self.run_batch() {
            Err(e) => Err(e),
            Ok((ts, ys)) => {
                self.times = ts;
                self.trajectory = ys;
                proof {
                    assert forall|j: int| 0 <= j < self.trajectory@.len() implies self.s_sample(j)
                        == Some(self.trajectory@[j]) by {
                        lemma_same_config_same_samples(*self, *old(self), j);
                    }
                }
                Ok(())
            },
        }
    }
}

/// A fresh label vector of the four given slot names.
fn labels4(a: &str, b: &str, c: &str, d: &str) -> (r: Vec<String>)
    ensures
        r@.len() == 4,
        r@[0]@ == a@,
        r@[1]@ == b@,
        r@[2]@ == c@,
        r@[3]@ == d@,
{
    let mut v: Vec<String> = Vec::new();
    v.push(a.to_owned());
    v.push(b.to_owned());
    v.push(c.to_owned());
    v.push(d.to_owned());
    v
}

/// The sleep that restores the pacing floor: with `elapsed_ms` already spent
/// on a step, sleeping this many milliseconds makes the step occupy at least
/// `delay_ms` of wall-clock time, and nothing is slept once the floor is met.
pub fn pacing_sleep(elapsed_ms: u64, delay_ms: u64) -> (r: u64)
    ensures
        r == if elapsed_ms < delay_ms {
            delay_ms - elapsed_ms
        } else {
            0
        },
        elapsed_ms + r >= delay_ms,
{
    if elapsed_ms < delay_ms {
        delay_ms - elapsed_ms
    } else {
        0
    }
}

} // verus!
