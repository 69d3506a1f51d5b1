//! Why a set of arguments was turned down.

use vstd::prelude::*;
use vstd::string::StringExecFns;

verus! {

/// The argument that an error is about.
#[derive(Clone, Copy, Debug, PartialEq, Eq, Structural)]
pub enum ErrorKind {
    /// The argument list as a whole.
    Argument,
    Service,
    Address,
    Username,
    Password,
}

impl ErrorKind {
    /// The name of the kind, as it is spelled in the source.
    pub open spec fn name(self) -> Seq<char> {
        match self {
            ErrorKind::Argument => "Argument"@,
            ErrorKind::Service => "Service"@,
            ErrorKind::Address => "Address"@,
            ErrorKind::Username => "Username"@,
            ErrorKind::Password => "Password"@,
        }
    }
}

/// The mathematical value of an [`Error`].
pub struct ErrorView {
    pub kind: ErrorKind,
    pub error: Seq<char>,
}

/// A rejected argument: which one, and what is wrong with it.
#[derive(Debug)]
pub struct Error {
    kind: ErrorKind,
    error: String,
}

impl View for Error {
    type V = ErrorView;

    closed spec fn view(&self) -> ErrorView {
        ErrorView { kind: self.kind, error: self.error@ }
    }
}

impl Error {
    /// An error of the given kind with the given explanation.
    pub fn new(kind: ErrorKind, error: &str) -> (e: Self)
        ensures
            e@ == (ErrorView { kind, error: error@ }),
    {
        Self { kind, error: error.to_owned() }
    }

    /// The argument that the error is about.
    pub fn kind(&self) -> (kind: ErrorKind)
        ensures
            kind == self@.kind,
    {
        self.kind
    }

    /// The explanation.
    pub fn error(&self) -> (error: &str)
        ensures
            error@ == self@.error,
    {
        self.error.as_str()
    }

    /// The error as one line for the operator: the name of the kind, a
    /// colon and a space, and the explanation.
    pub fn message(&self) -> (line: String)
        ensures
            line@ == self@.kind.name() + ": "@ + self@.error,
    {
        let name = match self.kind {
            ErrorKind::Argument => "Argument",
            ErrorKind::Service => "Service",
            ErrorKind::Address => "Address",
            ErrorKind::Username => "Username",
            ErrorKind::Password => "Password",
        };
        let mut line = name.to_owned();
        line.append(": ");
        line.append(self.error.as_str());
        line
    }
}

} // verus!
