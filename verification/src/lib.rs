//! Simulation of continuous-time dynamical systems by numerical integration
//! of ordinary differential equations.
//!
//! All real-valued quantities are carried as [`fixed::Fix`], a signed
//! fixed-point scalar with a decimal scale, so that every arithmetic step of
//! the models and of the integration strategies has an exact, machine-checked
//! contract. Overflow of the fixed-point range is reported as a numerical
//! failure, never silently wrapped.

pub mod conf_parse;
pub mod dopri5;
pub mod errors;
pub mod fixed;
pub mod harmonic_oscillator;
pub mod hh_neuron;
pub mod lorenz_attractor;
pub mod rk4;
pub mod solver;
pub mod state;
