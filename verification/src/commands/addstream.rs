//! The add command.

use crate::commands::{access_of, check_access, Access, Place};
use crate::text::{
    alphanumeric, contains_pattern, contains_text, is_alphanumeric, join_text, join_words,
    joined_from, lowercased, signed_decimal, signed_decimal_of, split_whitespace, to_lowercase,
    words_of,
};
use vstd::prelude::*;
use vstd::string::*;

verus! {

/// The longest channel name, in characters.
pub const MAX_CHANNEL_NAME_CHARS: usize = 25;

/// What an add command asks for.
#[derive(Debug, Clone, PartialEq, Eq)]
pub struct AddRequest {
    pub channel_name: String,
    pub custom_message: Option<String>,
}

/// What the add command answers.
#[derive(Debug, Clone, PartialEq, Eq)]
pub enum AddReply {
    Usage,
    InvalidName,
    NoUser,
    NotOwner,
    NotTextChannel,
    LimitReached { max: i64 },
    ChannelNotFound { channel: String },
    ValidationFailed,
    Added { channel: String, custom: bool },
    AlreadyAdded,
    Failed,
}

/// The wording of each answer.
pub open spec fn add_reply_text(reply: AddReply) -> Seq<char> {
    match reply {
        AddReply::Usage => "Usage: !addstream <channel_name> [custom_message]"@,
        AddReply::InvalidName => "Invalid channel name. Must be alphanumeric or underscores, max 25 characters."@,
        AddReply::NoUser => "Unable to identify user."@,
        AddReply::NotOwner => "You must be the server owner to add streams here."@,
        AddReply::NotTextChannel => "This command only works in server text channels."@,
        AddReply::LimitReached { max } => "You have reached the maximum limit of "@
            + signed_decimal_of(max as int) + " streams."@,
        AddReply::ChannelNotFound { channel } => "Twitch channel '"@ + channel@ + "' not found."@,
        AddReply::ValidationFailed => "Failed to validate channel with Twitch API."@,
        AddReply::Added { channel, custom } => if custom {
            "Added channel: "@ + channel@ + " (with custom message)"@
        } else {
            "Added channel: "@ + channel@
        },
        AddReply::AlreadyAdded => "This channel is already added in this server."@,
        AddReply::Failed => "Failed to add channel."@,
    }
}

impl AddReply {
    /// Words the answer.
    pub fn text(&self) -> (text: String)
        ensures
            text@ == add_reply_text(*self),
    {
        match self {
            AddReply::Usage => String::from_str("Usage: !addstream <channel_name> [custom_message]"),
            AddReply::InvalidName => String::from_str(
                "Invalid channel name. Must be alphanumeric or underscores, max 25 characters.",
            ),
            AddReply::NoUser => String::from_str("Unable to identify user."),
            AddReply::NotOwner => String::from_str(
                "You must be the server owner to add streams here.",
            ),
            AddReply::NotTextChannel => String::from_str(
                "This command only works in server text channels.",
            ),
            AddReply::LimitReached { max } => {
                let mut text = join_text(
                    "You have reached the maximum limit of ",
                    signed_decimal(*max).as_str(),
                );
                text.append(" streams.");
                text
            },
            AddReply::ChannelNotFound { channel } => {
                let mut text = join_text("Twitch channel '", channel.as_str());
                text.append("' not found.");
                text
            },
            AddReply::ValidationFailed => String::from_str(
                "Failed to validate channel with Twitch API.",
            ),
            AddReply::Added { channel, custom } => {
                let mut text = join_text("Added channel: ", channel.as_str());
                if *custom {
                    text.append(" (with custom message)");
                }
                text
            },
            AddReply::AlreadyAdded => String::from_str(
                "This channel is already added in this server.",
            ),
            AddReply::Failed => String::from_str("Failed to add channel."),
        }
    }
}

/// A channel name has between 1 and 25 characters, each a letter, a
/// number or an underscore.
pub open spec fn valid_channel_name(name: Seq<char>) -> bool {
    &&& 1 <= name.len() <= MAX_CHANNEL_NAME_CHARS
    &&& forall|i: int| 0 <= i < name.len() ==> alphanumeric(#[trigger] name[i]) || name[i] == '_'
}

/// Tells whether a text is a channel name.
pub fn is_valid_channel_name(name: &str) -> (valid: bool)
    ensures
        valid == valid_channel_name(name@),
{
    let n: usize = name.unicode_len();
    if n == 0 || n > MAX_CHANNEL_NAME_CHARS {
        return false;
    }
    let mut i: usize = 0;
    while i < n
        invariant
            n == name@.len(),
            i <= n,
            forall|j: int| 0 <= j < i ==> alphanumeric(#[trigger] name@[j]) || name@[j] == '_',
        decreases n - i,
    {
        let c = name.get_char(i);
        if !(is_alphanumeric(c) || c == '_') {
            return false;
        }
        i += 1;
    }
    true
}

/// What an add command asks for: the second word, in lower case, is the
/// channel; the words after it, joined by single spaces, are the wording
/// of the notification. A message of fewer than two words, or one whose
/// channel is no channel name, asks for nothing.
pub open spec fn add_request_in(content: Seq<char>) -> Result<(Seq<char>, Option<Seq<char>>), AddReply> {
    let words = words_of(content);
    if words.len() < 2 {
        Err(AddReply::Usage)
    } else if !valid_channel_name(lowercased(words[1])) {
        Err(AddReply::InvalidName)
    } else if words.len() > 2 {
        Ok((lowercased(words[1]), Some(joined_from(words, 2))))
    } else {
        Ok((lowercased(words[1]), None))
    }
}

/// The wording a request carries, as a plain value.
pub open spec fn wording_of(request: AddRequest) -> Option<Seq<char>> {
    match request.custom_message {
        Some(wording) => Some(wording@),
        None => None,
    }
}

/// Reads an add command: what it asks for, or the answer that turns it
/// down.
pub fn addstream(content: &str) -> (parsed: Result<AddRequest, AddReply>)
    ensures
        match parsed {
            Ok(request) => add_request_in(content@) == Ok::<_, AddReply>(
                (request.channel_name@, wording_of(request)),
            ),
            Err(reply) => add_request_in(content@) == Err::<(Seq<char>, Option<Seq<char>>), _>(
                reply,
            ),
        },
{
    let words = split_whitespace(content);
    if words.len() < 2 {
        return Err(AddReply::Usage);
    }
    assert(words_of(content@)[1] == words@[1]@);
    let channel_name = to_lowercase(words[1].as_str());
    let custom_message = if words.len() > 2 {
        Some(join_words(&words, 2))
    } else {
        None
    };
    if !is_valid_channel_name(channel_name.as_str()) {
        return Err(AddReply::InvalidName);
    }
    Ok(AddRequest { channel_name, custom_message })
}

/// Whether the user may add streams in the place, and the answer if not.
pub fn authorize_addition(user_id: Option<&str>, place: &Place) -> (refusal: Option<AddReply>)
    ensures
        refusal == match user_id {
            None => Some(AddReply::NoUser),
            Some(user) => match access_of(user@, *place) {
                Access::Granted => None,
                Access::NotOwner => Some(AddReply::NotOwner),
                Access::NotTextChannel => Some(AddReply::NotTextChannel),
            },
        },
{
    match user_id {
        None => Some(AddReply::NoUser),
        Some(user) => match check_access(user, place) {
            Access::Granted => None,
            Access::NotOwner => Some(AddReply::NotOwner),
            Access::NotTextChannel => Some(AddReply::NotTextChannel),
        },
    }
}

/// Whether a user who has `count` streams may add another, and the answer
/// if not: the limit is reached when the count is at or over it.
pub fn check_limit(count: i64, max: i64) -> (refusal: Option<AddReply>)
    ensures
        refusal == if count >= max {
            Some(AddReply::LimitReached { max })
        } else {
            None
        },
{
    if count >= max {
        Some(AddReply::LimitReached { max })
    } else {
        None
    }
}

/// What a channel lookup means for the command: `Ok(Some(..))` lets it go
/// on, an unknown channel and a failed lookup each have their answer.
pub fn check_lookup(channel: &str, lookup: Result<Option<String>, ()>) -> (refusal: Option<AddReply>)
    ensures
        match lookup {
            Ok(Some(_)) => refusal is None,
            Ok(None) => refusal matches Some(AddReply::ChannelNotFound { channel: named })
                && named@ == channel@,
            Err(_) => refusal == Some(AddReply::ValidationFailed),
        },
{
    match lookup {
        Ok(Some(_)) => None,
        Ok(None) => Some(AddReply::ChannelNotFound { channel: String::from_str(channel) }),
        Err(_) => Some(AddReply::ValidationFailed),
    }
}

/// Whether a database error says that the stream is there already.
pub open spec fn is_duplicate(error: Seq<char>) -> bool {
    contains_pattern(error, "UNIQUE constraint failed"@)
}

/// The answer after the insert: the stream was added, was there already,
/// or could not be stored. `error` holds the database's words if it
/// failed.
pub fn insert_reply(request: &AddRequest, error: Option<&str>) -> (reply: AddReply)
    ensures
        match error {
            None => reply matches AddReply::Added { channel, custom } && channel@
                == request.channel_name@ && custom == request.custom_message is Some,
            Some(words) => reply == if is_duplicate(words@) {
                AddReply::AlreadyAdded
            } else {
                AddReply::Failed
            },
        },
{
    match error {
        None => AddReply::Added {
            channel: request.channel_name.clone(),
            custom: request.custom_message.is_some(),
        },
        Some(words) => {
            if contains_text(words, "UNIQUE constraint failed") {
                AddReply::AlreadyAdded
            } else {
                AddReply::Failed
            }
        },
    }
}

} // verus!
