//! Errors reported by the backend adapters.

use vstd::prelude::*;
use crate::deserialize::{DeserializeError, DeserializeFault};
use crate::serialize::SerializeError;

verus! {

/// Why a database rejected or could not carry out a request.
#[derive(Debug, Clone, Copy, PartialEq, Eq, Structural)]
pub enum DatabaseErrorKind {
    /// A unique constraint was violated.
    UniqueViolation,
    /// A foreign key constraint was violated.
    ForeignKeyViolation,
    /// The request could not be handed to the database.
    UnableToSendCommand,
    /// A function could not be registered: it declares more parameters than
    /// the database accepts.
    UnableToRegister,
    /// The database gave no more specific reason.
    Unknown,
}

/// What can go wrong between a statement and the values built from its rows.
#[derive(Debug, PartialEq, Eq)]
pub enum Error {
    /// The database, or the driver in front of it, reported an error; the
    /// text is the driver's or the adapter's message.
    DatabaseError(DatabaseErrorKind, String),
    /// A row could not be turned into the requested value.
    DeserializationError(DeserializeError),
    /// A value could not be turned into bytes.
    SerializationError(SerializeError),
}

/// An `Error` as a mathematical value.
pub enum Failure {
    DatabaseError(DatabaseErrorKind, Seq<char>),
    DeserializationError(DeserializeFault),
    SerializationError(SerializeError),
}

impl View for Error {
    type V = Failure;

    open spec fn view(&self) -> Failure {
        match self {
            Error::DatabaseError(kind, message) => Failure::DatabaseError(*kind, message@),
            Error::DeserializationError(error) => Failure::DeserializationError(error@),
            Error::SerializationError(error) => Failure::SerializationError(*error),
        }
    }
}

/// The result of a request to a backend.
pub type QueryResult<T> = Result<T, Error>;

} // verus!
