//! What can go wrong around the session, and how it is worded.

use crate::text::join_text;
use vstd::prelude::*;
use vstd::string::*;

verus! {

/// A failure of one of the collaborators: the chat client, the database,
/// or the connection pool. Each carries the collaborator's own words.
#[derive(Debug, Clone, PartialEq, Eq)]
pub enum Error {
    StoatError(String),
    DatabaseError(String),
    PoolError(String),
}

/// The wording of an error: where it came from, then the collaborator's
/// words.
pub open spec fn error_text(error: Error) -> Seq<char> {
    match error {
        Error::StoatError(words) => "Stoat error: "@ + words@,
        Error::DatabaseError(words) => "Database error: "@ + words@,
        Error::PoolError(words) => "Pool error: "@ + words@,
    }
}

impl Error {
    /// Words the error for a log or a reply.
    pub fn message(&self) -> (text: String)
        ensures
            text@ == error_text(*self),
    {
        match self {
            Error::StoatError(words) => join_text("Stoat error: ", words.as_str()),
            Error::DatabaseError(words) => join_text("Database error: ", words.as_str()),
            Error::PoolError(words) => join_text("Pool error: ", words.as_str()),
        }
    }
}

} // verus!
