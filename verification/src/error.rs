//! The closed server-side error taxonomy and its canonical mapping to HTTP
//! status codes and wire bodies.
//!
//! `NotFound` is the only failure a caller may react to; everything else is
//! opaque. A backend failure is wrapped as `Internal`, keeping its cause for
//! diagnostics only: the wire body never carries it.

use vstd::prelude::*;
use crate::domain;

verus! {

/// Every way a request can fail on the server side.
#[derive(Debug)]
pub enum Error {
    /// The referenced entity, or its referenced parent, does not exist.
    NotFound,
    /// A path segment or payload failed to parse or validate.
    Malformed,
    /// A backend or unexpected failure; the detail is diagnostic only.
    Internal(String),
}

/// The canonical status code of each error kind.
pub open spec fn status_of(e: Error) -> u16 {
    match e {
        Error::NotFound => 404,
        Error::Malformed => 400,
        Error::Internal(_) => 500,
    }
}

/// The human-readable message of each error kind. The text is not a stable
/// contract; an internal cause never reaches the wire.
pub open spec fn message_of(e: Error) -> Seq<char> {
    match e {
        Error::NotFound => "not found"@,
        Error::Malformed => "malformed request"@,
        Error::Internal(_) => "internal error"@,
    }
}

impl Error {
    /// Wraps a backend failure, keeping its description for diagnostics.
    pub fn from_internal(detail: String) -> (r: Error)
        ensures
            r == Error::Internal(detail),
    {
        Error::Internal(detail)
    }

    /// The status code this error maps to on the wire.
    pub fn status(&self) -> (r: u16)
        ensures
            r == status_of(*self),
    {
        match self {
            Error::NotFound => 404,
            Error::Malformed => 400,
            Error::Internal(_) => 500,
        }
    }

    /// The full wire form: the canonical status code and an error body whose
    /// message never exposes backend internals.
    pub fn into_response(self) -> (r: (u16, domain::Error))
        ensures
            r.0 == status_of(self),
            r.1.error@ == message_of(self),
    {
        let message = match &self {
            Error::NotFound => "not found",
            Error::Malformed => "malformed request",
            Error::Internal(_) => "internal error",
        };
        (self.status(), domain::Error { error: message.to_owned() })
    }
}

} // verus!
