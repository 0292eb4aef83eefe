//! The messages exchanged with the event stream, and how they are read out
//! of a JSON document.

use crate::json::{as_text, json_members, json_text, member};
use vstd::prelude::*;
use vstd::string::*;

verus! {

/// The envelope's metadata.
#[derive(Debug, Clone, PartialEq, Eq)]
pub struct EventSubMetadata {
    pub message_type: String,
}

/// One inbound envelope: its metadata and its payload, not yet decoded.
#[derive(Debug)]
pub struct EventSubMessage {
    pub metadata: EventSubMetadata,
    pub payload: serde_json::Value,
}

/// The payload of a welcome message.
#[derive(Debug, Clone, PartialEq, Eq)]
pub struct SessionWelcome {
    pub session: Session,
}

/// The session a welcome message announces.
#[derive(Debug, Clone, PartialEq, Eq)]
pub struct Session {
    pub id: String,
}

/// The payload of a reconnect message.
#[derive(Debug, Clone, PartialEq, Eq)]
pub struct SessionReconnect {
    pub session: ReconnectSession,
}

/// The session part of a reconnect message.
#[derive(Debug, Clone, PartialEq, Eq)]
pub struct ReconnectSession {
    pub reconnect_url: String,
}

/// A channel went live.
#[derive(Debug, Clone, PartialEq, Eq)]
pub struct StreamOnline {
    pub broadcaster_user_id: String,
    pub broadcaster_user_login: String,
    pub broadcaster_user_name: String,
}

/// A channel went off the air.
#[derive(Debug, Clone, PartialEq, Eq)]
pub struct StreamOffline {
    pub broadcaster_user_login: String,
}

/// Which broadcaster a subscription is about.
#[derive(Debug, Clone, PartialEq, Eq)]
pub struct Condition {
    pub broadcaster_user_id: String,
}

/// The request body that creates one upstream subscription.
#[derive(Debug, Clone, PartialEq, Eq)]
pub struct CreateSubscription {
    pub sub_type: String,
    pub version: String,
    pub condition: Condition,
    pub transport: Transport,
}

/// How a subscription's events are delivered.
#[derive(Debug, Clone, PartialEq, Eq)]
pub struct Transport {
    pub method: String,
    pub session_id: String,
}

/// What a `StreamOnline` holds, as plain sequences.
pub struct StreamOnlineView {
    pub broadcaster_user_id: Seq<char>,
    pub broadcaster_user_login: Seq<char>,
    pub broadcaster_user_name: Seq<char>,
}

/// What a `CreateSubscription` holds, as plain sequences.
pub struct CreateSubscriptionView {
    pub sub_type: Seq<char>,
    pub version: Seq<char>,
    pub broadcaster_user_id: Seq<char>,
    pub method: Seq<char>,
    pub session_id: Seq<char>,
}

impl View for SessionWelcome {
    type V = Seq<char>;

    /// The session id.
    open spec fn view(&self) -> Seq<char> {
        self.session.id@
    }
}

impl View for SessionReconnect {
    type V = Seq<char>;

    /// The address to reconnect to.
    open spec fn view(&self) -> Seq<char> {
        self.session.reconnect_url@
    }
}

impl View for StreamOnline {
    type V = StreamOnlineView;

    open spec fn view(&self) -> StreamOnlineView {
        StreamOnlineView {
            broadcaster_user_id: self.broadcaster_user_id@,
            broadcaster_user_login: self.broadcaster_user_login@,
            broadcaster_user_name: self.broadcaster_user_name@,
        }
    }
}

impl View for StreamOffline {
    type V = Seq<char>;

    /// The login of the channel.
    open spec fn view(&self) -> Seq<char> {
        self.broadcaster_user_login@
    }
}

impl View for CreateSubscription {
    type V = CreateSubscriptionView;

    open spec fn view(&self) -> CreateSubscriptionView {
        CreateSubscriptionView {
            sub_type: self.sub_type@,
            version: self.version@,
            broadcaster_user_id: self.condition.broadcaster_user_id@,
            method: self.transport.method@,
            session_id: self.transport.session_id@,
        }
    }
}

/// The member of an object under `key`, if there is one.
pub open spec fn member_of(value: serde_json::Value, key: Seq<char>) -> Option<serde_json::Value> {
    if json_members(value).contains_key(key) {
        Some(json_members(value)[key])
    } else {
        None
    }
}

/// The text of the member under `key`, if there is such a member and it is
/// a string.
pub open spec fn text_member(value: serde_json::Value, key: Seq<char>) -> Option<Seq<char>> {
    match member_of(value, key) {
        Some(inner) => json_text(inner),
        None => None,
    }
}

/// The text under `outer` and then `inner`, two objects deep.
pub open spec fn nested_text(value: serde_json::Value, outer: Seq<char>, inner: Seq<char>) -> Option<
    Seq<char>,
> {
    match member_of(value, outer) {
        Some(object) => text_member(object, inner),
        None => None,
    }
}

/// Reads the string member `key` of an object.
pub fn read_text(value: &serde_json::Value, key: &str) -> (text: Option<String>)
    ensures
        match text {
            Some(t) => text_member(*value, key@) == Some(t@),
            None => text_member(*value, key@) is None,
        },
{
    match member(value, key) {
        Some(inner) => match as_text(inner) {
            Some(t) => Some(String::from_str(t)),
            None => None,
        },
        None => None,
    }
}

/// Reads the string under `outer` and then `inner`.
pub fn read_nested_text(value: &serde_json::Value, outer: &str, inner: &str) -> (text: Option<
    String,
>)
    ensures
        match text {
            Some(t) => nested_text(*value, outer@, inner@) == Some(t@),
            None => nested_text(*value, outer@, inner@) is None,
        },
{
    match member(value, outer) {
        Some(object) => read_text(object, inner),
        None => None,
    }
}

/// The session id a welcome payload carries: the string at `session.id`.
pub open spec fn welcome_in(payload: serde_json::Value) -> Option<Seq<char>> {
    nested_text(payload, "session"@, "id"@)
}

/// The address a reconnect payload carries: the string at
/// `session.reconnect_url`.
pub open spec fn reconnect_in(payload: serde_json::Value) -> Option<Seq<char>> {
    nested_text(payload, "session"@, "reconnect_url"@)
}

/// The online event an event object describes. All three strings must be
/// there.
pub open spec fn online_in(event: serde_json::Value) -> Option<StreamOnlineView> {
    match (
        text_member(event, "broadcaster_user_id"@),
        text_member(event, "broadcaster_user_login"@),
        text_member(event, "broadcaster_user_name"@),
    ) {
        (Some(id), Some(login), Some(name)) => Some(
            StreamOnlineView {
                broadcaster_user_id: id,
                broadcaster_user_login: login,
                broadcaster_user_name: name,
            },
        ),
        _ => None,
    }
}

/// The login an offline event object carries.
pub open spec fn offline_in(event: serde_json::Value) -> Option<Seq<char>> {
    text_member(event, "broadcaster_user_login"@)
}

/// The envelope a document holds: its message type, the string at
/// `metadata.message_type`, and its payload. Both must be there.
pub open spec fn envelope_in(document: serde_json::Value) -> Option<(Seq<char>, serde_json::Value)> {
    match (nested_text(document, "metadata"@, "message_type"@), member_of(document, "payload"@)) {
        (Some(message_type), Some(payload)) => Some((message_type, payload)),
        _ => None,
    }
}

impl EventSubMessage {
    /// Decodes the envelope of a document.
    pub fn from_json(document: &serde_json::Value) -> (message: Option<EventSubMessage>)
        ensures
            match message {
                Some(m) => envelope_in(*document) == Some((m.metadata.message_type@, m.payload)),
                None => envelope_in(*document) is None,
            },
    {
        let message_type = read_nested_text(document, "metadata", "message_type");
        let payload = member(document, "payload");
        match (message_type, payload) {
            (Some(message_type), Some(payload)) => Some(
                EventSubMessage {
                    metadata: EventSubMetadata { message_type },
                    payload: payload.clone(),
                },
            ),
            _ => None,
        }
    }
}

impl SessionWelcome {
    /// Decodes a welcome payload.
    pub fn from_json(payload: &serde_json::Value) -> (welcome: Option<SessionWelcome>)
        ensures
            match welcome {
                Some(w) => welcome_in(*payload) == Some(w@),
                None => welcome_in(*payload) is None,
            },
    {
        match read_nested_text(payload, "session", "id") {
            Some(id) => Some(SessionWelcome { session: Session { id } }),
            None => None,
        }
    }
}

impl SessionReconnect {
    /// Decodes a reconnect payload.
    pub fn from_json(payload: &serde_json::Value) -> (reconnect: Option<SessionReconnect>)
        ensures
            match reconnect {
                Some(r) => reconnect_in(*payload) == Some(r@),
                None => reconnect_in(*payload) is None,
            },
    {
        match read_nested_text(payload, "session", "reconnect_url") {
            Some(reconnect_url) => Some(
                SessionReconnect { session: ReconnectSession { reconnect_url } },
            ),
            None => None,
        }
    }
}

impl StreamOnline {
    /// Decodes the event object of an online notification.
    pub fn from_json(event: &serde_json::Value) -> (online: Option<StreamOnline>)
        ensures
            match online {
                Some(o) => online_in(*event) == Some(o@),
                None => online_in(*event) is None,
            },
    {
        let id = read_text(event, "broadcaster_user_id");
        let login = read_text(event, "broadcaster_user_login");
        let name = read_text(event, "broadcaster_user_name");
        match (id, login, name) {
            (Some(broadcaster_user_id), Some(broadcaster_user_login), Some(broadcaster_user_name)) => {
                Some(
                    StreamOnline {
                        broadcaster_user_id,
                        broadcaster_user_login,
                        broadcaster_user_name,
                    },
                )
            },
            _ => None,
        }
    }
}

impl StreamOffline {
    /// Decodes the event object of an offline notification.
    pub fn from_json(event: &serde_json::Value) -> (offline: Option<StreamOffline>)
        ensures
            match offline {
                Some(o) => offline_in(*event) == Some(o@),
                None => offline_in(*event) is None,
            },
    {
        match read_text(event, "broadcaster_user_login") {
            Some(broadcaster_user_login) => Some(StreamOffline { broadcaster_user_login }),
            None => None,
        }
    }
}

} // verus!
