//! The few questions this crate asks of the Python interpreter.
//!
//! Everything here is trusted: the declarations make three types of
//! `pyo3` known, and each function below makes one call into `pyo3` whose
//! contract is taken on faith. Every call attaches the calling thread to
//! the interpreter for its duration (`Python::attach`) and releases it on
//! return. A handle can only exist once the interpreter has been started,
//! and `pyo3` is built to start it on first use; what is left to the
//! caller is not to call while the interpreter shuts down, nor from within
//! a traversal of its garbage collector, where `pyo3` refuses to attach.

use vstd::prelude::*;
use pyo3::types::PyAnyMethods;

verus! {

/// `pyo3::PyAny`: a Python object of any type. Opaque.
#[verifier::external_type_specification]
#[verifier::external_body]
pub struct ExPyAny(pyo3::PyAny);

/// `pyo3::Py<T>`: an owned, reference-counted handle to a Python object.
/// Opaque: two handles are equal when they point to the same object.
#[verifier::external_type_specification]
#[verifier::external_body]
#[verifier::reject_recursive_types(T)]
pub struct ExPy<T>(pyo3::Py<T>);

/// `pyo3::PyErr`: an exception raised on the Python side. Opaque.
#[verifier::external_type_specification]
#[verifier::external_body]
pub struct ExPyErr(pyo3::PyErr);

/// A handle to a Python object of unknown type.
pub type PyObject = pyo3::Py<pyo3::PyAny>;

/// `PyAnyMethods::is_callable` on the object behind `handle`: Python's
/// `callable(obj)`. The answer depends on the object's type as the
/// interpreter holds it at the moment of the call, so nothing is claimed
/// of it.
#[verifier::external_body]
pub(crate) fn is_callable(handle: &PyObject) -> (answer: bool) {
    pyo3::Python::attach(|py| handle.bind(py).is_callable())
}

/// `PyAnyMethods::is_instance_of::<PyList>` on the object behind `handle`:
/// Python's `isinstance(obj, list)`. Nothing is claimed of the answer.
#[verifier::external_body]
pub(crate) fn is_list(handle: &PyObject) -> (answer: bool) {
    pyo3::Python::attach(|py| handle.bind(py).is_instance_of::<pyo3::types::PyList>())
}

/// `PyAnyMethods::hasattr` for the attribute `__array__`, by which array
/// libraries mark their arrays. The lookup may run code of the object and
/// so may raise; nothing is claimed of the answer.
#[verifier::external_body]
pub(crate) fn has_array_interface(handle: &PyObject) -> (answer: Result<bool, pyo3::PyErr>) {
    pyo3::Python::attach(|py| handle.bind(py).hasattr("__array__"))
}

/// `Py::clone_ref`: a second handle to the same object, whose reference
/// count goes up by one. The new handle points where the old one does.
#[verifier::external_body]
pub(crate) fn clone_handle(handle: &PyObject) -> (copy: PyObject)
    ensures
        copy == *handle,
{
    pyo3::Python::attach(|py| handle.clone_ref(py))
}

} // verus!
