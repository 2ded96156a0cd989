//! The validated settings object the engine is constructed from.
//!
//! Loading and deserializing a configuration file belongs to the surrounding
//! program; the engine consumes these plain records, with every real-valued
//! field already carried as a fixed-point scalar.

use vstd::prelude::*;

use crate::fixed::Fix;

verus! {

/// The full configuration: the simulation block plus one constant block per
/// model variant.
#[derive(Clone, Debug)]
pub struct Config {
    pub simulation: Simulation,
    pub harmonic_oscillator: HarmonicOscillatorSystem,
    pub hodgkin_huxley: HodgkinHuxleySystem,
    pub lorenz_attractor: LorenzAttractorSystem,
}

/// The simulation block: step count and size, strategy identifier, adaptive
/// tolerances, the real-time pacing floor in milliseconds, the model
/// identifier, and whether a visualization front-end is launched.
#[derive(Clone, Debug)]
pub struct Simulation {
    pub timesteps: usize,
    pub dt: Fix,
    pub solver: String,
    pub rtol: Fix,
    pub atol: Fix,
    pub realtime_delay: u64,
    pub diffeq_problem: String,
    pub show_plot: bool,
}

/// Constants of the harmonic oscillator.
#[derive(Clone, Copy, Debug)]
pub struct HarmonicOscillatorSystem {
    pub omega: Fix,
}

/// Constants and initial condition of the Hodgkin-Huxley neuron.
#[derive(Clone, Copy, Debug)]
pub struct HodgkinHuxleySystem {
    pub g_na: Fix,
    pub g_k: Fix,
    pub g_l: Fix,
    pub e_na: Fix,
    pub e_k: Fix,
    pub e_l: Fix,
    pub i_ext_amplitude: Fix,
    pub i_ext_start: Fix,
    pub i_ext_end: Fix,
    pub v0: Fix,
    pub m0: Fix,
    pub n0: Fix,
    pub h0: Fix,
}

/// Constants and initial condition of the Lorenz attractor.
#[derive(Clone, Copy, Debug)]
pub struct LorenzAttractorSystem {
    pub sigma: Fix,
    pub rho: Fix,
    pub beta: Fix,
    pub x0: Fix,
    pub y0: Fix,
    pub z0: Fix,
}

} // verus!
