//! The serialized interpreter session: run one script's text in the embedded
//! Python interpreter while its standard output goes to a buffer created for
//! that invocation alone, then put the original standard-output binding back
//! whatever happened in between.
//!
//! The interpreter is process-wide state. Mutual exclusion over the whole
//! redirect-run-restore sequence comes from holding the interpreter's global
//! lock for the duration of `execute_source`; the interpreter itself is
//! created lazily, once, on first use.
//!
//! The body of every invocation is ordered so that once the standard-output
//! binding has been switched to the capture buffer there is no exit path that
//! skips switching it back: the run and the buffer read-back keep their
//! outcomes as values, the restore call always follows them, and only then is
//! the invocation's result decided (`conclude_execution`).

use vstd::prelude::*;

use pyo3::types::PyAny;
use pyo3::types::PyAnyMethods;
use pyo3::types::PyDict;
use pyo3::Bound;
use pyo3::PyErr;
use pyo3::Python;

use crate::errors::HandlerError;

verus! {

#[verifier::external_type_specification]
#[verifier::external_body]
pub struct ExPython<'py>(Python<'py>);

#[verifier::external_type_specification]
#[verifier::external_body]
#[verifier::reject_recursive_types(T)]
pub struct ExBound<'py, T>(Bound<'py, T>);

#[verifier::external_type_specification]
#[verifier::external_body]
pub struct ExPyAny(PyAny);

#[verifier::external_type_specification]
#[verifier::external_body]
pub struct ExPyDict(PyDict);

#[verifier::external_type_specification]
#[verifier::external_body]
pub struct ExPyErr(PyErr);

/// Relies on pyo3's `Python::import_bound`: imports the named module and
/// returns a handle to it, or the interpreter's error.
#[verifier::external_body]
fn py_import<'py>(py: Python<'py>, name: &str) -> Result<Bound<'py, PyAny>, PyErr> {
    match py.import_bound(name) {
        Ok(module) => Ok(module.into_any()),
        Err(e) => Err(e),
    }
}

/// Relies on pyo3's `PyAnyMethods::getattr`: reads the named attribute of a
/// Python object.
#[verifier::external_body]
fn py_getattr<'py>(obj: &Bound<'py, PyAny>, name: &str) -> Result<Bound<'py, PyAny>, PyErr> {
    obj.getattr(name)
}

/// Relies on pyo3's `PyAnyMethods::setattr`: binds the named attribute of a
/// Python object to the given value.
#[verifier::external_body]
fn py_setattr<'py>(
    obj: &Bound<'py, PyAny>,
    name: &str,
    value: &Bound<'py, PyAny>,
) -> Result<(), PyErr> {
    obj.setattr(name, value)
}

/// Relies on pyo3's `PyAnyMethods::call0`: calls a Python object with no
/// arguments.
#[verifier::external_body]
fn py_call0<'py>(obj: &Bound<'py, PyAny>) -> Result<Bound<'py, PyAny>, PyErr> {
    obj.call0()
}

/// Relies on pyo3's `PyAnyMethods::call_method0`: calls the named method of
/// a Python object with no arguments.
#[verifier::external_body]
fn py_call_method0<'py>(
    obj: &Bound<'py, PyAny>,
    name: &str,
) -> Result<Bound<'py, PyAny>, PyErr> {
    obj.call_method0(name)
}

/// Relies on pyo3's `PyAnyMethods::extract`: converts a Python string object
/// into an owned Rust string.
#[verifier::external_body]
fn py_extract_string<'py>(obj: &Bound<'py, PyAny>) -> Result<String, PyErr> {
    obj.extract::<String>()
}

/// Relies on pyo3's `PyDict::new_bound`: creates a fresh, empty Python
/// dictionary, used here as the evaluation namespace of one invocation.
#[verifier::external_body]
fn py_new_dict<'py>(py: Python<'py>) -> Bound<'py, PyDict> {
    PyDict::new_bound(py)
}

/// Relies on pyo3's `Python::run_bound`: runs the given text as a top-level
/// Python program in the given namespace, returning the script's error if it
/// fails to parse or raises.
#[verifier::external_body]
fn py_run<'py>(py: Python<'py>, code: &str, namespace: &Bound<'py, PyDict>) -> Result<(), PyErr> {
    py.run_bound(code, Some(namespace), None)
}

/// Relies on pyo3's `Display` rendering of `PyErr`: the interpreter error as
/// a human-readable string.
#[verifier::external_body]
fn py_err_text(e: &PyErr) -> String {
    e.to_string()
}

/// What the execution stage may hand back: captured output, or one of the
/// two errors that stage owns — a script failure or a capture failure.
/// Path and read errors never arise here.
pub open spec fn execution_stage_result(r: Result<String, HandlerError>) -> bool {
    r matches Err(e) ==> (e matches HandlerError::ScriptExecutionFailed(_) || e matches
        HandlerError::OutputCaptureFailed(_))
}

/// A failure of the capture bookkeeping itself: the buffer could not be set
/// up or read back, or the binding could not be switched or restored.
fn capture_failure(e: &PyErr) -> (r: HandlerError)
    ensures
        r matches HandlerError::OutputCaptureFailed(_),
{
    HandlerError::OutputCaptureFailed(py_err_text(e))
}

/// A failure of the script itself: it failed to parse or raised an error.
fn script_failure(e: &PyErr) -> (r: HandlerError)
    ensures
        r matches HandlerError::ScriptExecutionFailed(_),
{
    HandlerError::ScriptExecutionFailed(py_err_text(e))
}

/// Decide one invocation's result from the three outcomes it gathered: the
/// run, the buffer read-back, and the restore of the original binding. A
/// restore failure is a capture failure and is reported first; otherwise a
/// script error wins over the read-back, so a failing script is always
/// reported as an execution failure; only when all three succeeded is the
/// captured text returned, exactly as the buffer handed it back.
pub fn conclude_execution(
    run: Result<(), PyErr>,
    output: Result<String, PyErr>,
    restore: Result<(), PyErr>,
) -> (r: Result<String, HandlerError>)
    ensures
        restore is Err ==> (r matches Err(e) && e matches HandlerError::OutputCaptureFailed(_)),
        restore is Ok && run is Err ==> (r matches Err(e) && e matches
            HandlerError::ScriptExecutionFailed(_)),
        restore is Ok && run is Ok && output is Err ==> (r matches Err(e) && e matches
            HandlerError::OutputCaptureFailed(_)),
        restore is Ok && run is Ok ==> (output matches Ok(text) ==> (r matches Ok(out) && out@
            == text@)),
        execution_stage_result(r),
{
    match restore {
        Err(e) => Err(capture_failure(&e)),
        Ok(()) => match run {
            Err(e) => Err(script_failure(&e)),
            Ok(()) => match output {
                Err(e) => Err(capture_failure(&e)),
                Ok(text) => Ok(text),
            },
        },
    }
}

/// One serialized invocation, run while the interpreter lock is held: build
/// a fresh capture buffer, switch the interpreter's global standard-output
/// binding to it, run the script in a fresh namespace, read the buffer back,
/// restore the original binding, and only then decide the result. Until the
/// binding has been switched, any setup failure returns at once as a capture
/// failure; from the switch onward every path runs the restore call.
pub fn execute_with_capture<'py>(py: Python<'py>, code: &str) -> (r: Result<String, HandlerError>)
    ensures
        execution_stage_result(r),
{
    let sys = match py_import(py, "sys") {
        Ok(module) => module,
        Err(e) => { return Err(capture_failure(&e)); },
    };
    let io_module = match py_import(py, "io") {
        Ok(module) => module,
        Err(e) => { return Err(capture_failure(&e)); },
    };
    let string_io = match py_getattr(&io_module, "StringIO") {
        Ok(attr) => attr,
        Err(e) => { return Err(capture_failure(&e)); },
    };
    let buffer = match py_call0(&string_io) {
        Ok(obj) => obj,
        Err(e) => { return Err(capture_failure(&e)); },
    };
    let old_stdout = match py_getattr(&sys, "stdout") {
        Ok(attr) => attr,
        Err(e) => { return Err(capture_failure(&e)); },
    };
    if let Err(e) = py_setattr(&sys, "stdout", &buffer) {
        return Err(capture_failure(&e));
    }
    // The binding now points at this invocation's buffer: no early return
    // below, every path reaches the restoring `py_setattr`.
    let namespace = py_new_dict(py);
    let run = py_run(py, code, &namespace);
    let output = match py_call_method0(&buffer, "getvalue") {
        Ok(value) => py_extract_string(&value),
        Err(e) => Err(e),
    };
    let restore = py_setattr(&sys, "stdout", &old_stdout);
    conclude_execution(run, output, restore)
}

/// Relies on pyo3's `Python::with_gil`: acquires the interpreter's global
/// lock — initializing the process-wide interpreter on first use — runs the
/// closure, and returns the closure's result unchanged. The closure is one
/// verified invocation, so the whole redirect-run-restore sequence happens
/// under the lock, mutually exclusive with every other invocation.
#[verifier::external_body]
pub(crate) fn execute_source(code: &str) -> (r: Result<String, HandlerError>)
    ensures
        execution_stage_result(r),
{
    Python::with_gil(|py| execute_with_capture(py, code))
}

} // verus!
