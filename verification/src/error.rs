//! The closed set of error kinds used by every layer, and how each is
//! reported to an HTTP client.

use vstd::prelude::*;
use vstd::string::StringExecFns;

verus! {

/// The kinds of failure, without their detail text.
#[derive(Clone, Copy, Debug, PartialEq, Eq, Structural)]
pub enum ErrorKind {
    LanguageNotFound,
    CompilationFailed,
    ExecutionFailed,
    SandboxError,
    BoxPoolExhausted,
    InvalidConfiguration,
    IoError,
    Internal,
}

/// A failure of the service. Every variant but `BoxPoolExhausted` carries a
/// detail text.
#[derive(Debug)]
pub enum DomainError {
    LanguageNotFound(String),
    CompilationFailed(String),
    /// Reserved: no operation produces it.
    ExecutionFailed(String),
    SandboxError(String),
    BoxPoolExhausted,
    InvalidConfiguration(String),
    IoError(String),
    Internal(String),
}

/// A result whose error is a `DomainError`.
pub type DomainResult<T> = Result<T, DomainError>;

/// The text that introduces the detail in the message of an error of the
/// given kind.
pub open spec fn kind_prefix(kind: ErrorKind) -> Seq<char> {
    match kind {
        ErrorKind::LanguageNotFound => "Language not found: "@,
        ErrorKind::CompilationFailed => "Compilation failed: "@,
        ErrorKind::ExecutionFailed => "Execution failed: "@,
        ErrorKind::SandboxError => "Sandbox error: "@,
        ErrorKind::BoxPoolExhausted => "Box pool exhausted"@,
        ErrorKind::InvalidConfiguration => "Invalid configuration: "@,
        ErrorKind::IoError => "IO error: "@,
        ErrorKind::Internal => "Internal error: "@,
    }
}

/// The HTTP status with which an error of the given kind is answered.
pub open spec fn kind_status(kind: ErrorKind) -> u16 {
    match kind {
        ErrorKind::LanguageNotFound => 404,
        ErrorKind::CompilationFailed => 400,
        ErrorKind::ExecutionFailed => 400,
        ErrorKind::BoxPoolExhausted => 503,
        ErrorKind::SandboxError => 500,
        ErrorKind::InvalidConfiguration => 500,
        ErrorKind::IoError => 500,
        ErrorKind::Internal => 500,
    }
}

impl DomainError {
    /// The kind of this error.
    pub open spec fn kind_of(&self) -> ErrorKind {
        match self {
            DomainError::LanguageNotFound(_) => ErrorKind::LanguageNotFound,
            DomainError::CompilationFailed(_) => ErrorKind::CompilationFailed,
            DomainError::ExecutionFailed(_) => ErrorKind::ExecutionFailed,
            DomainError::SandboxError(_) => ErrorKind::SandboxError,
            DomainError::BoxPoolExhausted => ErrorKind::BoxPoolExhausted,
            DomainError::InvalidConfiguration(_) => ErrorKind::InvalidConfiguration,
            DomainError::IoError(_) => ErrorKind::IoError,
            DomainError::Internal(_) => ErrorKind::Internal,
        }
    }

    /// The detail text of this error; empty for `BoxPoolExhausted`.
    pub open spec fn detail(&self) -> Seq<char> {
        match self {
            DomainError::LanguageNotFound(d) => d@,
            DomainError::CompilationFailed(d) => d@,
            DomainError::ExecutionFailed(d) => d@,
            DomainError::SandboxError(d) => d@,
            DomainError::BoxPoolExhausted => Seq::empty(),
            DomainError::InvalidConfiguration(d) => d@,
            DomainError::IoError(d) => d@,
            DomainError::Internal(d) => d@,
        }
    }

    /// The full message: the kind's prefix followed by the detail.
    pub open spec fn message_text(&self) -> Seq<char> {
        kind_prefix(self.kind_of()) + self.detail()
    }

    /// The kind of this error.
    pub fn kind(&self) -> (k: ErrorKind)
        ensures
            k == self.kind_of(),
    {
        match self {
            DomainError::LanguageNotFound(_) => ErrorKind::LanguageNotFound,
            DomainError::CompilationFailed(_) => ErrorKind::CompilationFailed,
            DomainError::ExecutionFailed(_) => ErrorKind::ExecutionFailed,
            DomainError::SandboxError(_) => ErrorKind::SandboxError,
            DomainError::BoxPoolExhausted => ErrorKind::BoxPoolExhausted,
            DomainError::InvalidConfiguration(_) => ErrorKind::InvalidConfiguration,
            DomainError::IoError(_) => ErrorKind::IoError,
            DomainError::Internal(_) => ErrorKind::Internal,
        }
    }

    /// The full message of this error.
    pub fn message(&self) -> (m: String)
        ensures
            m@ == self.message_text(),
    {
        match self {
            DomainError::LanguageNotFound(d) => String::from_str("Language not found: ").concat(
                d.as_str(),
            ),
            DomainError::CompilationFailed(d) => String::from_str("Compilation failed: ").concat(
                d.as_str(),
            ),
            DomainError::ExecutionFailed(d) => String::from_str("Execution failed: ").concat(
                d.as_str(),
            ),
            DomainError::SandboxError(d) => String::from_str("Sandbox error: ").concat(d.as_str()),
            DomainError::BoxPoolExhausted => {
                let m = String::from_str("Box pool exhausted");
                assert(m@ =~= self.message_text());
                m
            },
            DomainError::InvalidConfiguration(d) => String::from_str(
                "Invalid configuration: ",
            ).concat(d.as_str()),
            DomainError::IoError(d) => String::from_str("IO error: ").concat(d.as_str()),
            DomainError::Internal(d) => String::from_str("Internal error: ").concat(d.as_str()),
        }
    }
}

/// An error on its way to an HTTP client.
pub struct ApiError(pub DomainError);

impl ApiError {
    /// The text of the `error` field of the response body: the full message
    /// for an unknown language, a fixed sentence for an exhausted pool, and
    /// the bare detail otherwise.
    pub open spec fn body_text(&self) -> Seq<char> {
        match self.0.kind_of() {
            ErrorKind::LanguageNotFound => self.0.message_text(),
            ErrorKind::BoxPoolExhausted => "Service is busy, please try again later"@,
            _ => self.0.detail(),
        }
    }

    /// Wraps a domain error for the transport layer.
    pub fn new(error: DomainError) -> (e: Self)
        ensures
            e.0 == error,
    {
        ApiError(error)
    }

    /// The HTTP status of the response.
    pub fn status_code(&self) -> (code: u16)
        ensures
            code == kind_status(self.0.kind_of()),
            400 <= code < 600,
    {
        match self.0.kind() {
            ErrorKind::LanguageNotFound => 404,
            ErrorKind::CompilationFailed => 400,
            ErrorKind::ExecutionFailed => 400,
            ErrorKind::BoxPoolExhausted => 503,
            ErrorKind::SandboxError => 500,
            ErrorKind::InvalidConfiguration => 500,
            ErrorKind::IoError => 500,
            ErrorKind::Internal => 500,
        }
    }

    /// The text of the `error` field of the response body.
    pub fn body_message(&self) -> (m: String)
        ensures
            m@ == self.body_text(),
    {
        match &self.0 {
            DomainError::LanguageNotFound(_) => self.0.message(),
            DomainError::BoxPoolExhausted => String::from_str(
                "Service is busy, please try again later",
            ),
            DomainError::CompilationFailed(d) => d.clone(),
            DomainError::ExecutionFailed(d) => d.clone(),
            DomainError::SandboxError(d) => d.clone(),
            DomainError::InvalidConfiguration(d) => d.clone(),
            DomainError::IoError(d) => d.clone(),
            DomainError::Internal(d) => d.clone(),
        }
    }
}

} // verus!
