use vstd::prelude::*;

verus! {

/// `std::io::Error`, carried only to be mapped onto [`EvalError::InternalError`].
#[verifier::external_type_specification]
#[verifier::external_body]
pub struct ExIoError(std::io::Error);

/// Why an evaluation produced no callable.
#[derive(Clone, PartialEq, Eq, Debug)]
pub enum EvalError {
    /// The compiler ran and rejected the unit; the text is its diagnostic output.
    CompileError(String),
    /// Something around the compiler failed: workspace I/O, launching the
    /// compiler, loading the module or resolving its entry symbol.
    InternalError,
}

/// The message shown for an internal error.
pub const INTERNAL_ERROR_MESSAGE: &'static str = "internal error";

/// The text that reports an error to a user: the compiler's own diagnostic, or
/// a generic message for an internal failure.
pub open spec fn message_of(e: EvalError) -> Seq<char> {
    match e {
        EvalError::CompileError(s) => s@,
        EvalError::InternalError => INTERNAL_ERROR_MESSAGE@,
    }
}

impl EvalError {
    /// The text that reports this error.
    pub fn message(&self) -> (r: &str)
        ensures
            r@ == message_of(*self),
    {
        match self {
            EvalError::CompileError(s) => s.as_str(),
            EvalError::InternalError => INTERNAL_ERROR_MESSAGE,
        }
    }
}

impl AsRef<str> for EvalError {
    fn as_ref(&self) -> (r: &str)
        ensures
            r@ == message_of(*self),
    {
        self.message()
    }
}

/// An I/O failure is never the user's fault: it is an internal error.
impl From<std::io::Error> for EvalError {
    fn from(_e: std::io::Error) -> EvalError {
        EvalError::InternalError
    }
}

impl vstd::std_specs::convert::FromSpecImpl<std::io::Error> for EvalError {
    open spec fn obeys_from_spec() -> bool {
        true
    }

    open spec fn from_spec(v: std::io::Error) -> EvalError {
        EvalError::InternalError
    }
}

/// A failure described only by a string (such as a loader's message) is an
/// internal error; the string is dropped.
impl From<String> for EvalError {
    fn from(_s: String) -> EvalError {
        EvalError::InternalError
    }
}

impl vstd::std_specs::convert::FromSpecImpl<String> for EvalError {
    open spec fn obeys_from_spec() -> bool {
        true
    }

    open spec fn from_spec(v: String) -> EvalError {
        EvalError::InternalError
    }
}

} // verus!
