//! Error types the engine reports through, and the rules that classify
//! outside failures into them.
//!
//! The transports and stores this node talks to fail in their own types;
//! what reaches the engine is plain values — a status code, an error
//! text — and the classification below is fixed here.

use vstd::prelude::*;

verus! {

/// Errors from talking to the file server.
pub enum ServerError {
    /// The server was not reachable, or answered with an unexpected
    /// failure.
    NotFoundError,
    /// The server rejected the request.
    RequestError(String),
    /// A payload could not be turned into or out of its JSON form.
    ParseError(String),
}

impl ServerError {
    /// Classify an HTTP failure by its status code: a rejected request
    /// keeps its error text, everything else — including a missing
    /// status — counts as the server being unreachable.
    pub fn from_status(status: Option<u16>, detail: String) -> (r: ServerError)
        ensures
            status == Some(400u16) ==> (r matches ServerError::RequestError(t) && t@ == detail@),
            status != Some(400u16) ==> r is NotFoundError,
    {
        match status {
            Some(code) => {
                if code == 400 {
                    ServerError::RequestError(detail)
                } else {
                    ServerError::NotFoundError
                }
            },
            None => ServerError::NotFoundError,
        }
    }

    /// A short description of the error, for logs and for the user.
    pub fn description(&self) -> (r: &str)
        ensures
            match self {
                ServerError::NotFoundError => r@ == "Unable to contact server."@,
                ServerError::RequestError(t) => r@ == t@,
                ServerError::ParseError(t) => r@ == t@,
            },
    {
        match self {
            ServerError::NotFoundError => "Unable to contact server.",
            ServerError::RequestError(t) => t.as_str(),
            ServerError::ParseError(t) => t.as_str(),
        }
    }
}

/// Errors from the share store.
pub enum DatabaseError {
    /// The storage engine failed; the text is its own account of why.
    SqlError(String),
    /// The requested record is not in the store.
    DoesNotExist,
}

impl DatabaseError {
    /// The error as one line of text.
    pub fn message(&self) -> (r: String)
        ensures
            match self {
                DatabaseError::DoesNotExist => r@ == "not found in database"@,
                DatabaseError::SqlError(t) => r@
                    == "an sql error occured when interfacing with the database: "@ + t@,
            },
    {
        match self {
            DatabaseError::DoesNotExist => String::from_str("not found in database"),
            DatabaseError::SqlError(t) => {
                let mut r = String::from_str(
                    "an sql error occured when interfacing with the database: ",
                );
                r.append(t.as_str());
                r
            },
        }
    }
}

} // verus!
