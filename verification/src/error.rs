use vstd::prelude::*;

verus! {

/// The errors of the service; each carries a human-readable message.
#[derive(Debug)]
pub enum Error {
    NotFound(String),
    InvalidInput(String),
    DatabaseError(String),
    NetworkError(String),
    Unauthorized(String),
    Unknown(String),
}

/// The kind of an error, without its message.
#[derive(PartialEq, Eq, Structural, Clone, Copy, Debug)]
pub enum ErrorKind {
    NotFound,
    InvalidInput,
    DatabaseError,
    NetworkError,
    Unauthorized,
    Unknown,
}

/// An error as a value: its kind and its message.
pub struct ErrorView {
    pub kind: ErrorKind,
    pub message: Seq<char>,
}

impl View for Error {
    type V = ErrorView;

    open spec fn view(&self) -> ErrorView {
        match self {
            Error::NotFound(m) => ErrorView { kind: ErrorKind::NotFound, message: m@ },
            Error::InvalidInput(m) => ErrorView { kind: ErrorKind::InvalidInput, message: m@ },
            Error::DatabaseError(m) => ErrorView { kind: ErrorKind::DatabaseError, message: m@ },
            Error::NetworkError(m) => ErrorView { kind: ErrorKind::NetworkError, message: m@ },
            Error::Unauthorized(m) => ErrorView { kind: ErrorKind::Unauthorized, message: m@ },
            Error::Unknown(m) => ErrorView { kind: ErrorKind::Unknown, message: m@ },
        }
    }
}

/// The error value of the given kind and message.
pub open spec fn error_of(kind: ErrorKind, message: Seq<char>) -> ErrorView {
    ErrorView { kind, message }
}

impl Error {
    /// The error's kind.
    pub fn kind(&self) -> (kind: ErrorKind)
        ensures
            kind == self@.kind,
    {
        match self {
            Error::NotFound(_) => ErrorKind::NotFound,
            Error::InvalidInput(_) => ErrorKind::InvalidInput,
            Error::DatabaseError(_) => ErrorKind::DatabaseError,
            Error::NetworkError(_) => ErrorKind::NetworkError,
            Error::Unauthorized(_) => ErrorKind::Unauthorized,
            Error::Unknown(_) => ErrorKind::Unknown,
        }
    }

    /// The error's message, which is also its text form.
    pub fn to_string(&self) -> (text: String)
        ensures
            text@ == self@.message,
    {
        match self {
            Error::NotFound(m) => m.clone(),
            Error::InvalidInput(m) => m.clone(),
            Error::DatabaseError(m) => m.clone(),
            Error::NetworkError(m) => m.clone(),
            Error::Unauthorized(m) => m.clone(),
            Error::Unknown(m) => m.clone(),
        }
    }
}

impl Clone for Error {
    fn clone(&self) -> (r: Self)
        ensures
            r@ == self@,
    {
        match self {
            Error::NotFound(m) => Error::NotFound(m.clone()),
            Error::InvalidInput(m) => Error::InvalidInput(m.clone()),
            Error::DatabaseError(m) => Error::DatabaseError(m.clone()),
            Error::NetworkError(m) => Error::NetworkError(m.clone()),
            Error::Unauthorized(m) => Error::Unauthorized(m.clone()),
            Error::Unknown(m) => Error::Unknown(m.clone()),
        }
    }
}

} // verus!
