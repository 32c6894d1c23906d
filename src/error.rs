//! One error type for every failure the bridge can meet.
use vstd::prelude::*;
use vstd::string::to_string_from_display_ensures;
use vstd::string::StringExecFns;

verus! {

/// The parser's error type, carried through unchanged.
#[verifier::external_type_specification]
#[verifier::external_body]
pub struct ExPeppiError(peppi::io::Error);

/// Arrow's error type, carried through unchanged.
#[verifier::external_type_specification]
#[verifier::external_body]
pub struct ExArrowError(arrow2::error::Error);

/// std's I/O error type, carried through unchanged.
#[verifier::external_type_specification]
#[verifier::external_body]
pub struct ExIoError(std::io::Error);

/// serde_json's error type, carried through unchanged.
#[verifier::external_type_specification]
#[verifier::external_body]
pub struct ExJsonError(serde_json::Error);

/// The Python runtime's error type, carried through unchanged.
#[verifier::external_type_specification]
#[verifier::external_body]
pub struct ExPyErr(pyo3::PyErr);

/// Every failure of a read: one variant per source, each wrapping the
/// source's own error, and one for the bridge's own messages.
pub enum PyO3ArrowError {
    ArrowError(arrow2::error::Error),
    IoError(std::io::Error),
    PeppiError(peppi::io::Error),
    PeppiPyError(&'static str),
    PythonError(pyo3::PyErr),
    JsonError(serde_json::Error),
}

impl PyO3ArrowError {
    /// The message shown to the host: the wrapped error's own rendering, or
    /// the bridge's message itself.
    pub fn message(&self) -> (r: String)
        ensures
            self matches PyO3ArrowError::PeppiPyError(m) ==> r@ == m@,
            self matches PyO3ArrowError::ArrowError(e) ==> to_string_from_display_ensures(e, r),
            self matches PyO3ArrowError::IoError(e) ==> to_string_from_display_ensures(e, r),
            self matches PyO3ArrowError::PeppiError(e) ==> to_string_from_display_ensures(e, r),
            self matches PyO3ArrowError::PythonError(e) ==> to_string_from_display_ensures(e, r),
            self matches PyO3ArrowError::JsonError(e) ==> to_string_from_display_ensures(e, r),
    {
        match self {
            PyO3ArrowError::ArrowError(e) => e.to_string(),
            PyO3ArrowError::IoError(e) => e.to_string(),
            PyO3ArrowError::PeppiError(e) => e.to_string(),
            PyO3ArrowError::PeppiPyError(m) => String::from_str(m),
            PyO3ArrowError::PythonError(e) => e.to_string(),
            PyO3ArrowError::JsonError(e) => e.to_string(),
        }
    }

    /// Whether the error has an underlying cause: every variant but the
    /// bridge's own messages wraps one.
    pub fn has_source(&self) -> (r: bool)
        ensures
            r == !(self is PeppiPyError),
    {
        match self {
            PyO3ArrowError::PeppiPyError(_) => false,
            _ => true,
        }
    }
}

impl From<arrow2::error::Error> for PyO3ArrowError {
    fn from(err: arrow2::error::Error) -> (r: PyO3ArrowError)
        ensures
            r == PyO3ArrowError::ArrowError(err),
    {
        PyO3ArrowError::ArrowError(err)
    }
}

impl vstd::std_specs::convert::FromSpecImpl<arrow2::error::Error> for PyO3ArrowError {
    open spec fn obeys_from_spec() -> bool {
        true
    }

    open spec fn from_spec(err: arrow2::error::Error) -> PyO3ArrowError {
        PyO3ArrowError::ArrowError(err)
    }
}

impl From<std::io::Error> for PyO3ArrowError {
    fn from(err: std::io::Error) -> (r: PyO3ArrowError)
        ensures
            r == PyO3ArrowError::IoError(err),
    {
        PyO3ArrowError::IoError(err)
    }
}

impl vstd::std_specs::convert::FromSpecImpl<std::io::Error> for PyO3ArrowError {
    open spec fn obeys_from_spec() -> bool {
        true
    }

    open spec fn from_spec(err: std::io::Error) -> PyO3ArrowError {
        PyO3ArrowError::IoError(err)
    }
}

impl From<pyo3::PyErr> for PyO3ArrowError {
    fn from(err: pyo3::PyErr) -> (r: PyO3ArrowError)
        ensures
            r == PyO3ArrowError::PythonError(err),
    {
        PyO3ArrowError::PythonError(err)
    }
}

impl vstd::std_specs::convert::FromSpecImpl<pyo3::PyErr> for PyO3ArrowError {
    open spec fn obeys_from_spec() -> bool {
        true
    }

    open spec fn from_spec(err: pyo3::PyErr) -> PyO3ArrowError {
        PyO3ArrowError::PythonError(err)
    }
}

impl From<peppi::io::Error> for PyO3ArrowError {
    fn from(err: peppi::io::Error) -> (r: PyO3ArrowError)
        ensures
            r == PyO3ArrowError::PeppiError(err),
    {
        PyO3ArrowError::PeppiError(err)
    }
}

impl vstd::std_specs::convert::FromSpecImpl<peppi::io::Error> for PyO3ArrowError {
    open spec fn obeys_from_spec() -> bool {
        true
    }

    open spec fn from_spec(err: peppi::io::Error) -> PyO3ArrowError {
        PyO3ArrowError::PeppiError(err)
    }
}

impl From<&'static str> for PyO3ArrowError {
    fn from(err: &'static str) -> (r: PyO3ArrowError)
        ensures
            r == PyO3ArrowError::PeppiPyError(err),
    {
        PyO3ArrowError::PeppiPyError(err)
    }
}

impl vstd::std_specs::convert::FromSpecImpl<&'static str> for PyO3ArrowError {
    open spec fn obeys_from_spec() -> bool {
        true
    }

    open spec fn from_spec(err: &'static str) -> PyO3ArrowError {
        PyO3ArrowError::PeppiPyError(err)
    }
}

impl From<serde_json::Error> for PyO3ArrowError {
    fn from(err: serde_json::Error) -> (r: PyO3ArrowError)
        ensures
            r == PyO3ArrowError::JsonError(err),
    {
        PyO3ArrowError::JsonError(err)
    }
}

impl vstd::std_specs::convert::FromSpecImpl<serde_json::Error> for PyO3ArrowError {
    open spec fn obeys_from_spec() -> bool {
        true
    }

    open spec fn from_spec(err: serde_json::Error) -> PyO3ArrowError {
        PyO3ArrowError::JsonError(err)
    }
}

/// The message for a file that could not be opened: its path, then the
/// reason.
pub fn open_failure_message(path: &str, reason: &str) -> (r: String)
    ensures
        r@ == path@ + ": "@ + reason@,
{
    proof {
        reveal_strlit(": ");
    }
    let mut r = String::from_str(path);
    r.append(": ");
    r.append(reason);
    r
}

} // verus!
