//! The remove command.

use crate::commands::{access_of, check_access, Access, Place};
use crate::text::{join_text, lowercased, same_text, split_whitespace, to_lowercase, words_of};
use vstd::prelude::*;
use vstd::string::*;

verus! {

/// What the database did for a removal.
#[derive(Debug, Clone, Copy, PartialEq, Eq, Structural)]
pub enum Removal {
    /// The stream was the user's and was deleted.
    Deleted,
    /// The stream was the user's, but nothing was deleted.
    Unchanged,
    /// The stream was added by someone else.
    NotOwner,
    /// The channel has no such stream.
    NotFound,
    /// The database failed.
    Failed,
}

/// What the remove command answers.
#[derive(Debug, Clone, PartialEq, Eq)]
pub enum RemoveReply {
    Usage,
    NoUser,
    NotOwner,
    NotTextChannel,
    Removed { channel: String },
    StreamNotFound,
    NotYours,
    NotInChannel { channel: String },
    Failed,
}

/// The wording of each answer.
pub open spec fn remove_reply_text(reply: RemoveReply) -> Seq<char> {
    match reply {
        RemoveReply::Usage => "Usage: !removestream <channel_name>"@,
        RemoveReply::NoUser => "Unable to identify user."@,
        RemoveReply::NotOwner => "You must be the server owner to remove streams here."@,
        RemoveReply::NotTextChannel => "This command only works in server text channels."@,
        RemoveReply::Removed { channel } => "Removed channel: "@ + channel@,
        RemoveReply::StreamNotFound => "Stream not found."@,
        RemoveReply::NotYours => "You can only remove streams you added."@,
        RemoveReply::NotInChannel { channel } => "Stream "@ + channel@
            + " not found in this channel."@,
        RemoveReply::Failed => "Failed to remove stream."@,
    }
}

impl RemoveReply {
    /// Words the answer.
    pub fn text(&self) -> (text: String)
        ensures
            text@ == remove_reply_text(*self),
    {
        match self {
            RemoveReply::Usage => String::from_str("Usage: !removestream <channel_name>"),
            RemoveReply::NoUser => String::from_str("Unable to identify user."),
            RemoveReply::NotOwner => String::from_str(
                "You must be the server owner to remove streams here.",
            ),
            RemoveReply::NotTextChannel => String::from_str(
                "This command only works in server text channels.",
            ),
            RemoveReply::Removed { channel } => join_text("Removed channel: ", channel.as_str()),
            RemoveReply::StreamNotFound => String::from_str("Stream not found."),
            RemoveReply::NotYours => String::from_str("You can only remove streams you added."),
            RemoveReply::NotInChannel { channel } => {
                let mut text = join_text("Stream ", channel.as_str());
                text.append(" not found in this channel.");
                text
            },
            RemoveReply::Failed => String::from_str("Failed to remove stream."),
        }
    }
}

/// The channel a remove command names: its second word, in lower case.
/// A message of fewer than two words names none.
pub open spec fn channel_to_remove(content: Seq<char>) -> Option<Seq<char>> {
    if words_of(content).len() < 2 {
        None
    } else {
        Some(lowercased(words_of(content)[1]))
    }
}

/// Reads a remove command: the channel it names, or the usage note.
pub fn removestream(content: &str) -> (parsed: Result<String, RemoveReply>)
    ensures
        match parsed {
            Ok(channel) => channel_to_remove(content@) == Some(channel@),
            Err(reply) => channel_to_remove(content@) is None && reply == RemoveReply::Usage,
        },
{
    let words = split_whitespace(content);
    if words.len() < 2 {
        Err(RemoveReply::Usage)
    } else {
        assert(words_of(content@)[1] == words@[1]@);
        Ok(to_lowercase(words[1].as_str()))
    }
}

/// Whether the user may remove streams in the place, and the answer if
/// not.
pub fn authorize_removal(user_id: Option<&str>, place: &Place) -> (refusal: Option<RemoveReply>)
    ensures
        refusal == match user_id {
            None => Some(RemoveReply::NoUser),
            Some(user) => match access_of(user@, *place) {
                Access::Granted => None,
                Access::NotOwner => Some(RemoveReply::NotOwner),
                Access::NotTextChannel => Some(RemoveReply::NotTextChannel),
            },
        },
{
    match user_id {
        None => Some(RemoveReply::NoUser),
        Some(user) => match check_access(user, place) {
            Access::Granted => None,
            Access::NotOwner => Some(RemoveReply::NotOwner),
            Access::NotTextChannel => Some(RemoveReply::NotTextChannel),
        },
    }
}

/// What to do with a stream of a channel, given who added it: the user's
/// own stream may be deleted, another's not, and a stream that is not
/// there is not found.
pub fn check_stream_owner(added_by: Option<&str>, user_id: &str) -> (verdict: Option<Removal>)
    ensures
        verdict == match added_by {
            Some(owner) => if owner@ == user_id@ {
                None
            } else {
                Some(Removal::NotOwner)
            },
            None => Some(Removal::NotFound),
        },
{
    match added_by {
        Some(owner) => {
            if same_text(owner, user_id) {
                None
            } else {
                Some(Removal::NotOwner)
            }
        },
        None => Some(Removal::NotFound),
    }
}

/// The answer that goes with what the database did.
pub open spec fn removal_reply_of(channel: Seq<char>, removal: Removal) -> Seq<char> {
    match removal {
        Removal::Deleted => "Removed channel: "@ + channel,
        Removal::Unchanged => "Stream not found."@,
        Removal::NotOwner => "You can only remove streams you added."@,
        Removal::NotFound => "Stream "@ + channel + " not found in this channel."@,
        Removal::Failed => "Failed to remove stream."@,
    }
}

/// Picks the answer that goes with what the database did.
pub fn removal_reply(channel: &str, removal: Removal) -> (reply: RemoveReply)
    ensures
        remove_reply_text(reply) == removal_reply_of(channel@, removal),
{
    match removal {
        Removal::Deleted => RemoveReply::Removed { channel: String::from_str(channel) },
        Removal::Unchanged => RemoveReply::StreamNotFound,
        Removal::NotOwner => RemoveReply::NotYours,
        Removal::NotFound => RemoveReply::NotInChannel { channel: String::from_str(channel) },
        Removal::Failed => RemoveReply::Failed,
    }
}

/// Whether the upstream subscription is to go as well: only when no
/// recipient is left for the channel.
pub fn should_unsubscribe(remaining_recipients: i64) -> (unsubscribe: bool)
    ensures
        unsubscribe == (remaining_recipients == 0),
{
    remaining_recipients == 0
}

} // verus!
