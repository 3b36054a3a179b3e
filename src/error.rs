//! Errors raised while building or checking a transport configuration.

use vstd::prelude::*;

verus! {

/// Classification of an error; everything here is a configuration problem.
#[derive(Clone, Copy, Debug, PartialEq, Eq, Structural)]
pub enum ErrorCategory {
    Configuration,
}

/// Which configuration rule an error reports.
#[derive(Clone, Copy, Debug, PartialEq, Eq, Structural)]
pub enum ConfigErrorKind {
    /// The protocol has no entry in the table the operation consults.
    UnsupportedProtocol,
    /// The host is the empty string.
    EmptyHost,
    /// The port is zero.
    ZeroPort,
    /// A supported protocol that no protocol-specific rule knows.
    UnknownProtocolForValidation,
}

/// A configuration error: its category, the rule that failed, a message and an
/// optional underlying error.
#[derive(Debug)]
pub struct AsyncApiError {
    pub category: ErrorCategory,
    pub kind: ConfigErrorKind,
    pub message: String,
    pub cause: Option<Box<AsyncApiError>>,
}

impl AsyncApiError {
    /// A configuration error of the given kind, with no underlying error.
    pub fn configuration(kind: ConfigErrorKind, message: String) -> (r: AsyncApiError)
        ensures
            r.category == ErrorCategory::Configuration,
            r.kind == kind,
            r.message@ == message@,
            r.cause is None,
    {
        AsyncApiError { category: ErrorCategory::Configuration, kind, message, cause: None }
    }

    /// The human-readable message.
    pub fn message(&self) -> (r: &str)
        ensures
            r@ == self.message@,
    {
        self.message.as_str()
    }
}

/// Result of an operation of this library.
pub type AsyncApiResult<T> = Result<T, AsyncApiError>;

} // verus!
