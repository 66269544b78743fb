//! One scalar term of the rate law, as a function of composition and
//! temperature: the pre-exponential factor or the activation energy.

use vstd::prelude::*;
use crate::diffusion::error::DiffusivityError;
use crate::diffusion::validation::{validate_array_type, validate_callback_xt};
use crate::python::{clone_handle, PyObject};

verus! {

/// The two shapes a term takes. `F` is the type of a compiled formula; the
/// crate stores and hands out such a formula and never calls it.
#[derive(Debug)]
pub enum RateTerm<F> {
    /// A formula compiled into the embedding program.
    Native(F),
    /// A callable that lives in the interpreter, shared by reference count.
    Foreign(PyObject),
}

impl<F: Copy> Clone for RateTerm<F> {
    /// A native formula is copied; of a foreign callable a second handle is
    /// taken, the callable itself is not copied.
    fn clone(&self) -> (copy: Self)
        ensures
            copy == *self,
    {
        match self {
            RateTerm::Native(formula) => RateTerm::Native(*formula),
            RateTerm::Foreign(callback) => RateTerm::Foreign(clone_handle(callback)),
        }
    }
}

/// The number that a foreign callable's return value was read as, if it
/// could be read as one.
pub open spec fn spec_numeric_result<S>(extracted: Option<S>) -> Result<S, DiffusivityError> {
    match extracted {
        Some(value) => Ok(value),
        None => Err(DiffusivityError::NonNumericResult),
    }
}

/// Closes the evaluation of a foreign term: `extracted` is what the
/// callable's return value gave when read as a number.
pub fn numeric_result<S>(extracted: Option<S>) -> (outcome: Result<S, DiffusivityError>)
    ensures
        outcome == spec_numeric_result(extracted),
{
    match extracted {
        Some(value) => Ok(value),
        None => Err(DiffusivityError::NonNumericResult),
    }
}

/// The pre-exponential factor `D0(x, T)` of a diffusivity.
#[derive(Debug)]
pub struct PreExponentialFactor<F> {
    term: RateTerm<F>,
}

/// The activation energy `Ea(x, T)` of a diffusivity.
#[derive(Debug)]
pub struct ActivationEnergy<F> {
    term: RateTerm<F>,
}

impl<F> View for PreExponentialFactor<F> {
    type V = RateTerm<F>;

    closed spec fn view(&self) -> RateTerm<F> {
        self.term
    }
}

impl<F> View for ActivationEnergy<F> {
    type V = RateTerm<F>;

    closed spec fn view(&self) -> RateTerm<F> {
        self.term
    }
}

impl<F> PreExponentialFactor<F> {
    /// A factor given by a compiled formula.
    pub fn from_rust_fn(rust_fn: F) -> (factor: Self)
        ensures
            factor@ == RateTerm::Native(rust_fn),
    {
        PreExponentialFactor { term: RateTerm::Native(rust_fn) }
    }

    /// A factor given by a callable of the interpreter, which is checked
    /// once, here, to be callable. Whether it is, the interpreter decides;
    /// where it is not, the failure is [`DiffusivityError::InvalidCallback`].
    pub fn new(callback: PyObject) -> (made: Result<Self, DiffusivityError>)
        ensures
            match made {
                Ok(factor) => factor@ == RateTerm::<F>::Foreign(callback),
                Err(failure) => failure == DiffusivityError::InvalidCallback,
            },
    {
        match validate_callback_xt(&callback) {
            Ok(()) => Ok(PreExponentialFactor { term: RateTerm::Foreign(callback) }),
            Err(failure) => Err(failure),
        }
    }

    /// The term itself.
    pub fn term(&self) -> (term: &RateTerm<F>)
        ensures
            *term == self@,
    {
        &self.term
    }

    /// Opens an evaluation on the composition `array`: checks that it is a
    /// sequence, as every evaluation does anew, and hands out what is to be
    /// invoked on it. Whether it is a sequence, the interpreter decides;
    /// where it is not, the failure is
    /// [`DiffusivityError::InvalidArgumentType`].
    pub fn request(&self, array: &PyObject) -> (asked: Result<&RateTerm<F>, DiffusivityError>)
        ensures
            match asked {
                Ok(term) => *term == self@,
                Err(failure) => failure == DiffusivityError::InvalidArgumentType,
            },
    {
        match validate_array_type(array) {
            Ok(()) => Ok(&self.term),
            Err(failure) => Err(failure),
        }
    }
}

impl<F: Copy> Clone for PreExponentialFactor<F> {
    fn clone(&self) -> (copy: Self)
        ensures
            copy@ == self@,
    {
        PreExponentialFactor { term: self.term.clone() }
    }
}

impl<F> ActivationEnergy<F> {
    /// An activation energy given by a compiled formula.
    pub fn from_rust_fn(rust_fn: F) -> (energy: Self)
        ensures
            energy@ == RateTerm::Native(rust_fn),
    {
        ActivationEnergy { term: RateTerm::Native(rust_fn) }
    }

    /// An activation energy given by a callable of the interpreter, which
    /// is checked once, here, to be callable. Whether it is, the
    /// interpreter decides; where it is not, the failure is
    /// [`DiffusivityError::InvalidCallback`].
    pub fn new(callback: PyObject) -> (made: Result<Self, DiffusivityError>)
        ensures
            match made {
                Ok(energy) => energy@ == RateTerm::<F>::Foreign(callback),
                Err(failure) => failure == DiffusivityError::InvalidCallback,
            },
    {
        match validate_callback_xt(&callback) {
            Ok(()) => Ok(ActivationEnergy { term: RateTerm::Foreign(callback) }),
            Err(failure) => Err(failure),
        }
    }

    /// The term itself.
    pub fn term(&self) -> (term: &RateTerm<F>)
        ensures
            *term == self@,
    {
        &self.term
    }

    /// Opens an evaluation on the composition `array`: checks that it is a
    /// sequence, as every evaluation does anew, and hands out what is to be
    /// invoked on it. Whether it is a sequence, the interpreter decides;
    /// where it is not, the failure is
    /// [`DiffusivityError::InvalidArgumentType`].
    pub fn request(&self, array: &PyObject) -> (asked: Result<&RateTerm<F>, DiffusivityError>)
        ensures
            match asked {
                Ok(term) => *term == self@,
                Err(failure) => failure == DiffusivityError::InvalidArgumentType,
            },
    {
        match validate_array_type(array) {
            Ok(()) => Ok(&self.term),
            Err(failure) => Err(failure),
        }
    }
}

impl<F: Copy> Clone for ActivationEnergy<F> {
    fn clone(&self) -> (copy: Self)
        ensures
            copy@ == self@,
    {
        ActivationEnergy { term: self.term.clone() }
    }
}

} // verus!
