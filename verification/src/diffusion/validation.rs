//! The two checks made on what the interpreter hands over: that a callback
//! can be called, and that a composition is a sequence of numbers as far
//! as its type tells.

use vstd::prelude::*;
use crate::diffusion::error::DiffusivityError;
use crate::python::{has_array_interface, is_callable, is_list, PyObject};

verus! {

/// A callback is accepted when the interpreter says it can be called.
pub open spec fn spec_callback_verdict(invocable: bool) -> Result<(), DiffusivityError> {
    if invocable {
        Ok(())
    } else {
        Err(DiffusivityError::InvalidCallback)
    }
}

/// The verdict on a callback of which the interpreter has said whether it
/// can be called.
pub fn callback_verdict(invocable: bool) -> (verdict: Result<(), DiffusivityError>)
    ensures
        verdict == spec_callback_verdict(invocable),
{
    if invocable {
        Ok(())
    } else {
        Err(DiffusivityError::InvalidCallback)
    }
}

/// Checks that `callback` can be called. Only that is checked: whether it
/// takes a composition and a temperature shows when it is called.
///
/// The interpreter decides; the only failure is
/// [`DiffusivityError::InvalidCallback`].
pub fn validate_callback_xt(callback: &PyObject) -> (verdict: Result<(), DiffusivityError>)
    ensures
        verdict is Ok || verdict == spec_callback_verdict(false),
{
    callback_verdict(is_callable(callback))
}

/// A composition is accepted when it is a list, or when it answers for
/// the array interface. A lookup of the interface that raised counts as
/// an interface that is not there.
pub open spec fn spec_array_verdict(
    list: bool,
    array_interface: Result<bool, pyo3::PyErr>,
) -> Result<(), DiffusivityError> {
    if list || array_interface == Ok::<bool, pyo3::PyErr>(true) {
        Ok(())
    } else {
        Err(DiffusivityError::InvalidArgumentType)
    }
}

/// The verdict on a composition of which the interpreter has said whether
/// it is a list and whether it has the array interface.
pub fn array_verdict(list: bool, array_interface: Result<bool, pyo3::PyErr>) -> (verdict: Result<
    (),
    DiffusivityError,
>)
    ensures
        verdict == spec_array_verdict(list, array_interface),
{
    if list {
        return Ok(());
    }
    match array_interface {
        Ok(true) => Ok(()),
        _ => Err(DiffusivityError::InvalidArgumentType),
    }
}

/// Checks that `array` is a list or an array-like object. The array
/// interface is looked up only on what is not a list.
///
/// The interpreter decides; the only failure is
/// [`DiffusivityError::InvalidArgumentType`].
pub fn validate_array_type(array: &PyObject) -> (verdict: Result<(), DiffusivityError>)
    ensures
        verdict is Ok || verdict == spec_array_verdict(false, Ok(false)),
{
    if is_list(array) {
        array_verdict(true, Ok(false))
    } else {
        array_verdict(false, has_array_interface(array))
    }
}

} // verus!
