//! Errors that the service answers with, and errors of the persistence layer.
use vstd::prelude::*;

verus! {

/// Why a request failed.
#[derive(Clone, Copy, Debug, PartialEq, Eq, Structural)]
pub enum Cause {
    /// The client sent something the service refuses.
    ClientBadRequest,
    /// Something went wrong inside the service.
    InnerError,
    /// The database refused or failed an operation.
    DbError,
}

/// An error answered to the client: its cause and a message.
#[derive(Debug)]
pub struct ApiError {
    pub cause: Cause,
    pub message: String,
}

impl ApiError {
    pub fn new(cause: Cause, message: &str) -> (r: ApiError)
        ensures
            r.cause == cause,
            r.message@ == message@,
    {
        ApiError { cause, message: message.to_owned() }
    }

    pub fn from_string(cause: Cause, message: String) -> (r: ApiError)
        ensures
            r.cause == cause,
            r.message@ == message@,
    {
        ApiError { cause, message }
    }

    pub fn with_bad_request(message: &str) -> (r: ApiError)
        ensures
            r.cause == Cause::ClientBadRequest,
            r.message@ == message@,
    {
        ApiError::new(Cause::ClientBadRequest, message)
    }

    pub fn with_inner_error(message: &str) -> (r: ApiError)
        ensures
            r.cause == Cause::InnerError,
            r.message@ == message@,
    {
        ApiError::new(Cause::InnerError, message)
    }
}

/// Errors of the persistence layer as the domain sees them.
#[derive(Debug)]
pub enum RepositoryError {
    ConnectionFailed(String),
    Infrastructure(String),
    NotFound(String),
}

/// Why a database operation failed, with the inner errors already rendered
/// as text. One variant for each way the database layer reports a failure.
#[derive(Debug)]
pub enum DbErrDetail {
    ConnectionAcquire(String),
    TryIntoErr { from: String, into: String, source: String },
    Conn(String),
    Exec(String),
    Query(String),
    ConvertFromU64(String),
    UnpackInsertId,
    UpdateGetPrimaryKey,
    RecordNotFound(String),
    AttrNotSet(String),
    Custom(String),
    Type(String),
    Json(String),
    Migration(String),
    RecordNotInserted,
    RecordNotUpdated,
}

} // verus!
