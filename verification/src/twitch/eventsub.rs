//! What arrives on the event stream and what is sent out for it: decoding
//! frames, rendering notifications, and the session state machine.

use crate::text::{join_text, replace_all, replaced, same_text};
use crate::json::{member, json_document, parse};
use crate::twitch::types::{
    envelope_in, member_of, offline_in, online_in, read_text, reconnect_in, text_member,
    welcome_in, EventSubMessage, SessionReconnect, SessionWelcome, StreamOffline, StreamOnline,
    StreamOnlineView,
};
use vstd::prelude::*;
use vstd::string::*;

verus! {

/// Someone who is told when a channel goes live: where the message goes
/// and, if they chose one, their own wording.
#[derive(Debug, Clone, PartialEq, Eq)]
pub struct NotificationRecipient {
    pub destination_channel: String,
    pub custom_template: Option<String>,
}

/// One message to send: the destination and the finished text.
#[derive(Debug, Clone, PartialEq, Eq)]
pub struct Notification {
    pub destination: String,
    pub text: String,
}

/// The address of a channel's stream.
pub open spec fn stream_url_of(login: Seq<char>) -> Seq<char> {
    "https://twitch.tv/"@ + login
}

/// The wording used when a recipient chose none.
pub open spec fn default_message(name: Seq<char>, login: Seq<char>) -> Seq<char> {
    name + " is now live! "@ + stream_url_of(login)
}

/// The text a recipient receives. In a template, `{channel}` stands for
/// the display name and `{url}` for the stream's address; the name is put
/// in first.
pub open spec fn rendered_message(
    template: Option<Seq<char>>,
    name: Seq<char>,
    login: Seq<char>,
) -> Seq<char> {
    match template {
        Some(wording) => replaced(
            replaced(wording, "{channel}"@, name),
            "{url}"@,
            stream_url_of(login),
        ),
        None => default_message(name, login),
    }
}

/// The address of the message endpoint of a destination channel.
pub open spec fn message_endpoint_of(destination: Seq<char>) -> Seq<char> {
    "https://api.revolt.chat/channels/"@ + destination + "/messages"@
}

/// Builds the address of a channel's stream.
pub fn stream_url(login: &str) -> (url: String)
    ensures
        url@ == stream_url_of(login@),
{
    join_text("https://twitch.tv/", login)
}

/// Builds the address of the message endpoint of a destination channel.
pub fn message_endpoint(destination: &str) -> (url: String)
    ensures
        url@ == message_endpoint_of(destination@),
{
    let mut url = join_text("https://api.revolt.chat/channels/", destination);
    url.append("/messages");
    url
}

/// Renders the text for one recipient.
pub fn render_message(template: Option<&str>, name: &str, login: &str) -> (text: String)
    ensures
        text@ == rendered_message(
            match template {
                Some(wording) => Some(wording@),
                None => None,
            },
            name@,
            login@,
        ),
{
    let url = stream_url(login);
    match template {
        Some(wording) => {
            let named = replace_all(wording, "{channel}", name);
            replace_all(named.as_str(), "{url}", url.as_str())
        },
        None => {
            let mut text = join_text(name, " is now live! ");
            text.append(url.as_str());
            assert(text@ =~= default_message(name@, login@));
            text
        },
    }
}

/// The template of a recipient, as a plain value.
pub open spec fn template_of(recipient: NotificationRecipient) -> Option<Seq<char>> {
    match recipient.custom_template {
        Some(wording) => Some(wording@),
        None => None,
    }
}

/// Renders one notification per recipient of a channel that went live, in
/// the order of the recipients.
pub fn dispatch(recipients: &Vec<NotificationRecipient>, event: &StreamOnline) -> (out: Vec<
    Notification,
>)
    ensures
        out@.len() == recipients@.len(),
        forall|i: int|
            0 <= i < recipients@.len() ==> (#[trigger] out@[i]).destination@
                == recipients@[i].destination_channel@ && out@[i].text@ == rendered_message(
                template_of(recipients@[i]),
                event.broadcaster_user_name@,
                event.broadcaster_user_login@,
            ),
{
    let mut out: Vec<Notification> = Vec::new();
    let mut i: usize = 0;
    while i < recipients.len()
        invariant
            i <= recipients@.len(),
            out@.len() == i,
            forall|j: int|
                0 <= j < i ==> (#[trigger] out@[j]).destination@
                    == recipients@[j].destination_channel@ && out@[j].text@ == rendered_message(
                    template_of(recipients@[j]),
                    event.broadcaster_user_name@,
                    event.broadcaster_user_login@,
                ),
        decreases recipients@.len() - i,
    {
        let recipient = &recipients[i];
        let template: Option<&str> = match &recipient.custom_template {
            Some(wording) => Some(wording.as_str()),
            None => None,
        };
        let text = render_message(
            template,
            event.broadcaster_user_name.as_str(),
            event.broadcaster_user_login.as_str(),
        );
        let destination = recipient.destination_channel.clone();
        out.push(Notification { destination, text });
        i += 1;
    }
    out
}

/// One message as the socket delivers it.
#[derive(Debug, Clone, PartialEq, Eq)]
pub enum WsFrame {
    Text(String),
    Close,
    Ping,
    Pong,
    Other,
}

/// What a frame means to the session.
#[derive(Debug, Clone, PartialEq, Eq)]
pub enum Inbound {
    /// The upstream greets a new connection and names the session.
    Welcome(SessionWelcome),
    /// A channel went live.
    Online(StreamOnline),
    /// A channel went off the air.
    Offline(StreamOffline),
    /// The upstream asks to move to another address.
    Reconnect(SessionReconnect),
    /// Nothing to act on: a control frame, or a message of a type or about
    /// an event that the session does not handle.
    Ignored,
    /// A text frame that is no envelope, or whose payload lacks what its
    /// type calls for.
    Malformed,
}

/// What an `Inbound` holds, as plain values.
pub enum InboundView {
    Welcome(Seq<char>),
    Online(StreamOnlineView),
    Offline(Seq<char>),
    Reconnect(Seq<char>),
    Ignored,
    Malformed,
}

impl View for Inbound {
    type V = InboundView;

    open spec fn view(&self) -> InboundView {
        match *self {
            Inbound::Welcome(welcome) => InboundView::Welcome(welcome@),
            Inbound::Online(online) => InboundView::Online(online@),
            Inbound::Offline(offline) => InboundView::Offline(offline@),
            Inbound::Reconnect(reconnect) => InboundView::Reconnect(reconnect@),
            Inbound::Ignored => InboundView::Ignored,
            Inbound::Malformed => InboundView::Malformed,
        }
    }
}

/// What a notification payload means. It must hold an event and a
/// subscription. The subscription's type selects how the event is read; a
/// type that is neither online nor offline, or no string, is ignored.
pub open spec fn notification_in(payload: serde_json::Value) -> InboundView {
    match (member_of(payload, "event"@), member_of(payload, "subscription"@)) {
        (Some(event), Some(subscription)) => {
            let kind = text_member(subscription, "type"@);
            if kind == Some("stream.online"@) {
                match online_in(event) {
                    Some(online) => InboundView::Online(online),
                    None => InboundView::Malformed,
                }
            } else if kind == Some("stream.offline"@) {
                match offline_in(event) {
                    Some(login) => InboundView::Offline(login),
                    None => InboundView::Malformed,
                }
            } else {
                InboundView::Ignored
            }
        },
        _ => InboundView::Malformed,
    }
}

/// What an envelope with the given message type and payload means.
pub open spec fn message_meaning(message_type: Seq<char>, payload: serde_json::Value) -> InboundView {
    if message_type == "session_welcome"@ {
        match welcome_in(payload) {
            Some(id) => InboundView::Welcome(id),
            None => InboundView::Malformed,
        }
    } else if message_type == "notification"@ {
        notification_in(payload)
    } else if message_type == "session_reconnect"@ {
        match reconnect_in(payload) {
            Some(url) => InboundView::Reconnect(url),
            None => InboundView::Malformed,
        }
    } else {
        InboundView::Ignored
    }
}

/// What a parsed text frame means: `None` stands for a text that is no
/// JSON.
pub open spec fn document_meaning(document: Option<serde_json::Value>) -> InboundView {
    match document {
        Some(value) => match envelope_in(value) {
            Some((message_type, payload)) => message_meaning(message_type, payload),
            None => InboundView::Malformed,
        },
        None => InboundView::Malformed,
    }
}

/// What a frame means: a text frame what its document means, any other
/// frame nothing.
pub open spec fn frame_meaning(frame: WsFrame) -> InboundView {
    match frame {
        WsFrame::Text(text) => document_meaning(json_document(text@)),
        _ => InboundView::Ignored,
    }
}

/// Decodes the payload of a welcome message.
pub fn handle_welcome(payload: &serde_json::Value) -> (inbound: Inbound)
    ensures
        inbound@ == match welcome_in(*payload) {
            Some(id) => InboundView::Welcome(id),
            None => InboundView::Malformed,
        },
{
    match SessionWelcome::from_json(payload) {
        Some(welcome) => Inbound::Welcome(welcome),
        None => Inbound::Malformed,
    }
}

/// Decodes the payload of a reconnect message.
pub fn handle_reconnect(payload: &serde_json::Value) -> (inbound: Inbound)
    ensures
        inbound@ == match reconnect_in(*payload) {
            Some(url) => InboundView::Reconnect(url),
            None => InboundView::Malformed,
        },
{
    match SessionReconnect::from_json(payload) {
        Some(reconnect) => Inbound::Reconnect(reconnect),
        None => Inbound::Malformed,
    }
}

/// Decodes the payload of a notification.
pub fn handle_notification(payload: &serde_json::Value) -> (inbound: Inbound)
    ensures
        inbound@ == notification_in(*payload),
{
    let event = member(payload, "event");
    let subscription = member(payload, "subscription");
    match (event, subscription) {
        (Some(event), Some(subscription)) => {
            let kind = read_text(subscription, "type");
            match kind {
                Some(kind) => {
                    if same_text(kind.as_str(), "stream.online") {
                        match StreamOnline::from_json(event) {
                            Some(online) => Inbound::Online(online),
                            None => Inbound::Malformed,
                        }
                    } else if same_text(kind.as_str(), "stream.offline") {
                        match StreamOffline::from_json(event) {
                            Some(offline) => Inbound::Offline(offline),
                            None => Inbound::Malformed,
                        }
                    } else {
                        Inbound::Ignored
                    }
                },
                None => Inbound::Ignored,
            }
        },
        _ => Inbound::Malformed,
    }
}

/// Decodes an envelope by its message type.
pub fn handle_message(message: &EventSubMessage) -> (inbound: Inbound)
    ensures
        inbound@ == message_meaning(message.metadata.message_type@, message.payload),
{
    let message_type = message.metadata.message_type.as_str();
    if same_text(message_type, "session_welcome") {
        handle_welcome(&message.payload)
    } else if same_text(message_type, "notification") {
        handle_notification(&message.payload)
    } else if same_text(message_type, "session_reconnect") {
        handle_reconnect(&message.payload)
    } else {
        Inbound::Ignored
    }
}

/// Decodes what a parsed document means.
pub fn handle_document(document: Option<&serde_json::Value>) -> (inbound: Inbound)
    ensures
        inbound@ == document_meaning(
            match document {
                Some(value) => Some(*value),
                None => None,
            },
        ),
{
    match document {
        Some(value) => match EventSubMessage::from_json(value) {
            Some(message) => handle_message(&message),
            None => Inbound::Malformed,
        },
        None => Inbound::Malformed,
    }
}

/// Decodes one frame from the socket.
pub fn handle_ws_message(frame: &WsFrame) -> (inbound: Inbound)
    ensures
        inbound@ == frame_meaning(*frame),
{
    match frame {
        WsFrame::Text(text) => {
            let document = parse(text.as_str());
            handle_document(document.as_ref())
        },
        _ => Inbound::Ignored,
    }
}

} // verus!
