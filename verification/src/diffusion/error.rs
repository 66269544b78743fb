//! The ways in which building or evaluating a diffusivity fails.

use vstd::prelude::*;
use vstd::string::StringExecFns;

verus! {

/// Why a construction or an evaluation did not succeed.
#[derive(Debug)]
pub enum DiffusivityError {
    /// A value supplied as a callback cannot be called.
    InvalidCallback,
    /// The composition is neither a list nor an array-like object.
    InvalidArgumentType,
    /// A callback returned something that is not a number.
    NonNumericResult,
    /// A diffusivity was asked for with an unsupported combination of
    /// terms and callbacks.
    InvalidConstruction,
    /// A composition does not have the number of fractions that a formula
    /// reads.
    InvalidDimension,
    /// The interpreter raised while a term was being evaluated; the
    /// exception is carried as it came.
    Raised(pyo3::PyErr),
}

impl DiffusivityError {
    /// The text that describes each kind of failure.
    pub open spec fn spec_message(self) -> Seq<char> {
        match self {
            DiffusivityError::InvalidCallback =>
                "callback must be callable with signature: fn(x[], T)"@,
            DiffusivityError::InvalidArgumentType => "array must be a list or numpy array"@,
            DiffusivityError::NonNumericResult => "callback must return a number"@,
            DiffusivityError::InvalidConstruction =>
                "Must provide either (pre_exponential, activation_energy) objects or (pre_exponential_func, activation_energy_func) functions"@,
            DiffusivityError::InvalidDimension =>
                "composition array must have exactly two elements"@,
            DiffusivityError::Raised(_) => "the interpreter raised an exception"@,
        }
    }

    /// A description of the failure for the caller to report. For
    /// [`DiffusivityError::Raised`] the details are in the exception itself.
    pub fn message(&self) -> (text: String)
        ensures
            text@ == self.spec_message(),
    {
        match self {
            DiffusivityError::InvalidCallback => String::from_str(
                "callback must be callable with signature: fn(x[], T)",
            ),
            DiffusivityError::InvalidArgumentType => String::from_str(
                "array must be a list or numpy array",
            ),
            DiffusivityError::NonNumericResult => String::from_str("callback must return a number"),
            DiffusivityError::InvalidConstruction => String::from_str(
                "Must provide either (pre_exponential, activation_energy) objects or (pre_exponential_func, activation_energy_func) functions",
            ),
            DiffusivityError::InvalidDimension => String::from_str(
                "composition array must have exactly two elements",
            ),
            DiffusivityError::Raised(_) => String::from_str("the interpreter raised an exception"),
        }
    }
}

} // verus!
