//! The chat commands: what they read out of a message and what they
//! answer. Sending the answer, and asking the database and the upstream,
//! is the caller's part.

pub mod addstream;
pub mod helpstream;
pub mod liststreams;
pub mod removestream;

use crate::text::same_text;
use vstd::prelude::*;
use vstd::string::*;

verus! {

/// The command set.
#[derive(Debug, Clone, Copy, PartialEq, Eq)]
pub struct Commands;

impl Commands {
    /// The prefixes that mark a message as a command: the exclamation mark
    /// alone.
    pub fn get_prefix(&self) -> (prefixes: Vec<String>)
        ensures
            prefixes@.len() == 1,
            prefixes@[0]@ == "!"@,
    {
        let mut prefixes: Vec<String> = Vec::new();
        prefixes.push(String::from_str("!"));
        prefixes
    }
}

/// Where a command was given.
#[derive(Debug, Clone, PartialEq, Eq)]
pub enum Place {
    /// A text channel of a server with this owner.
    TextChannel { owner: String },
    /// Anywhere else.
    Elsewhere,
}

/// Whether a user may change the streams of a place.
#[derive(Debug, Clone, Copy, PartialEq, Eq, Structural)]
pub enum Access {
    Granted,
    /// The place is a server text channel, but the user does not own the
    /// server.
    NotOwner,
    /// The place is no server text channel.
    NotTextChannel,
}

/// Only the owner of a server may change the streams of its text
/// channels.
pub open spec fn access_of(user_id: Seq<char>, place: Place) -> Access {
    match place {
        Place::TextChannel { owner } => if owner@ == user_id {
            Access::Granted
        } else {
            Access::NotOwner
        },
        Place::Elsewhere => Access::NotTextChannel,
    }
}

/// Decides whether a user may change the streams of a place.
pub fn check_access(user_id: &str, place: &Place) -> (access: Access)
    ensures
        access == access_of(user_id@, *place),
{
    match place {
        Place::TextChannel { owner } => {
            if same_text(owner.as_str(), user_id) {
                Access::Granted
            } else {
                Access::NotOwner
            }
        },
        Place::Elsewhere => Access::NotTextChannel,
    }
}

} // verus!
