//! The error taxonomy: configuration errors are detected at engine
//! construction or at the first use of the offending identifier, numerical
//! failures at the integration step that hit them. Every fatal condition
//! surfaces to the immediate caller; nothing falls back to a default model
//! or strategy.

use vstd::prelude::*;

verus! {

/// What went wrong: a configuration error or a numerical failure.
#[derive(Clone, Copy, Debug, PartialEq, Eq, Structural)]
pub enum SimError {
    /// The configured model identifier names no known model.
    UnknownModel,
    /// The configured strategy identifier names no known strategy.
    UnknownSolver,
    /// The configured step size is not positive.
    NonPositiveStep,
    /// The configured time range does not fit the fixed-point scale.
    TimeOverflow,
    /// An integration step overflowed the fixed-point range or could not
    /// satisfy the configured tolerances within the trial budget.
    Numerical,
}

impl SimError {
    /// A short description of the error.
    pub fn message(&self) -> (r: String)
        ensures
            r@ == match *self {
                SimError::UnknownModel => "unknown model identifier"@,
                SimError::UnknownSolver => "unknown strategy identifier"@,
                SimError::NonPositiveStep => "step size must be positive"@,
                SimError::TimeOverflow => "time range exceeds the fixed-point scale"@,
                SimError::Numerical => "integration step failed numerically"@,
            },
    {
        match *self {
            SimError::UnknownModel => "unknown model identifier".to_owned(),
            SimError::UnknownSolver => "unknown strategy identifier".to_owned(),
            SimError::NonPositiveStep => "step size must be positive".to_owned(),
            SimError::TimeOverflow => "time range exceeds the fixed-point scale".to_owned(),
            SimError::Numerical => "integration step failed numerically".to_owned(),
        }
    }
}

} // verus!
