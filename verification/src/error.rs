//! What can go wrong while a repository record is assembled.

use vstd::prelude::*;

verus! {

/// The scalar kind that a field of a document is read as.
#[derive(Clone, Copy, Debug, PartialEq, Eq)]
pub enum Kind {
    /// A string.
    Text,
    /// A whole number from zero to `u64::MAX`.
    Unsigned,
    /// Any number, whole or not.
    Number,
    /// `true` or `false`.
    Boolean,
}

/// Why an operation failed.
#[derive(Clone, Debug, PartialEq, Eq)]
pub enum Error {
    /// The request to `endpoint` did not come back.
    TransportFailure { endpoint: String },
    /// What `endpoint` sent is not a document of the expected form.
    DecodeFailure { endpoint: String },
    /// The document has no member named `field`.
    FieldMissing { field: String, expected: Kind },
    /// The member named `field` holds something that is not of the kind `expected`.
    FieldTypeMismatch { field: String, expected: Kind },
    /// The platform reported that there is nothing at `endpoint`.
    NotFound { endpoint: String },
}

/// The mathematical value of an [`Error`]: the same cases over sequences of
/// characters.
pub enum Failure {
    TransportFailure(Seq<char>),
    DecodeFailure(Seq<char>),
    FieldMissing(Seq<char>, Kind),
    FieldTypeMismatch(Seq<char>, Kind),
    NotFound(Seq<char>),
}

impl View for Error {
    type V = Failure;

    open spec fn view(&self) -> Failure {
        match self {
            Error::TransportFailure { endpoint } => Failure::TransportFailure(endpoint@),
            Error::DecodeFailure { endpoint } => Failure::DecodeFailure(endpoint@),
            Error::FieldMissing { field, expected } => Failure::FieldMissing(field@, *expected),
            Error::FieldTypeMismatch { field, expected } => Failure::FieldTypeMismatch(
                field@,
                *expected,
            ),
            Error::NotFound { endpoint } => Failure::NotFound(endpoint@),
        }
    }
}

} // verus!
