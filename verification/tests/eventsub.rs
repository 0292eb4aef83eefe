use stream_alerts::twitch::eventsub::{
    dispatch, handle_document, handle_message, handle_notification, handle_reconnect,
    handle_welcome, handle_ws_message, message_endpoint, render_message, stream_url, Inbound,
    Notification, NotificationRecipient, WsFrame,
};
use stream_alerts::twitch::types::{
    EventSubMessage, ReconnectSession, Session, SessionReconnect, SessionWelcome, StreamOffline,
    StreamOnline,
};

fn json(text: &str) -> serde_json::Value {
    serde_json::from_str(text).unwrap()
}

fn online(id: &str, login: &str, name: &str) -> StreamOnline {
    StreamOnline {
        broadcaster_user_id: id.to_string(),
        broadcaster_user_login: login.to_string(),
        broadcaster_user_name: name.to_string(),
    }
}

fn text_frame(text: &str) -> WsFrame {
    WsFrame::Text(text.to_string())
}

#[test]
fn custom_template_is_filled_in() {
    let recipients = vec![NotificationRecipient {
        destination_channel: "room1".to_string(),
        custom_template: Some("{channel} live at {url}".to_string()),
    }];
    let out = dispatch(&recipients, &online("1", "foo", "Foo"));
    assert_eq!(
        out,
        vec![Notification {
            destination: "room1".to_string(),
            text: "Foo live at https://twitch.tv/foo".to_string(),
        }]
    );
}

#[test]
fn default_message_is_used_without_template() {
    assert_eq!(render_message(None, "Foo", "foo"), "Foo is now live! https://twitch.tv/foo");
}

#[test]
fn every_placeholder_occurrence_is_replaced() {
    assert_eq!(
        render_message(Some("{url} {channel} {url} {channel}"), "N", "l"),
        "https://twitch.tv/l N https://twitch.tv/l N"
    );
    assert_eq!(render_message(Some("no placeholders"), "N", "l"), "no placeholders");
    assert_eq!(render_message(Some(""), "N", "l"), "");
}

#[test]
fn name_is_put_in_before_the_url() {
    assert_eq!(render_message(Some("{channel}"), "{url}", "l"), "https://twitch.tv/l");
    assert_eq!(render_message(Some("{url}"), "N", "{channel}"), "https://twitch.tv/{channel}");
}

#[test]
fn dispatch_renders_one_message_per_recipient_in_order() {
    let recipients = vec![
        NotificationRecipient { destination_channel: "a".to_string(), custom_template: None },
        NotificationRecipient {
            destination_channel: "b".to_string(),
            custom_template: Some("go {url}".to_string()),
        },
        NotificationRecipient { destination_channel: "c".to_string(), custom_template: None },
    ];
    let out = dispatch(&recipients, &online("9", "Some_Login", "Some Name"));
    assert_eq!(out.len(), 3);
    assert_eq!(out[0].destination, "a");
    assert_eq!(out[0].text, "Some Name is now live! https://twitch.tv/Some_Login");
    assert_eq!(out[1].destination, "b");
    assert_eq!(out[1].text, "go https://twitch.tv/Some_Login");
    assert_eq!(out[2].destination, "c");
    assert!(dispatch(&Vec::new(), &online("9", "x", "X")).is_empty());
}

#[test]
fn addresses_are_built_from_their_parts() {
    assert_eq!(stream_url("foo"), "https://twitch.tv/foo");
    assert_eq!(message_endpoint("01ABC"), "https://api.revolt.chat/channels/01ABC/messages");
}

#[test]
fn welcome_frame_is_decoded() {
    let frame = text_frame(
        r#"{"metadata":{"message_type":"session_welcome","message_id":"x"},
            "payload":{"session":{"id":"sess-1","status":"connected"}}}"#,
    );
    assert_eq!(
        handle_ws_message(&frame),
        Inbound::Welcome(SessionWelcome { session: Session { id: "sess-1".to_string() } })
    );
}

#[test]
fn reconnect_frame_is_decoded() {
    let frame = text_frame(
        r#"{"metadata":{"message_type":"session_reconnect"},
            "payload":{"session":{"id":"s","reconnect_url":"wss://new"}}}"#,
    );
    assert_eq!(
        handle_ws_message(&frame),
        Inbound::Reconnect(SessionReconnect {
            session: ReconnectSession { reconnect_url: "wss://new".to_string() },
        })
    );
}

#[test]
fn online_notification_is_decoded() {
    let frame = text_frame(
        r#"{"metadata":{"message_type":"notification"},
            "payload":{"subscription":{"type":"stream.online","id":"q"},
                       "event":{"broadcaster_user_id":"42","broadcaster_user_login":"foo",
                                "broadcaster_user_name":"Foo","type":"live"}}}"#,
    );
    assert_eq!(handle_ws_message(&frame), Inbound::Online(online("42", "foo", "Foo")));
}

#[test]
fn offline_notification_is_decoded() {
    let frame = text_frame(
        r#"{"metadata":{"message_type":"notification"},
            "payload":{"subscription":{"type":"stream.offline"},
                       "event":{"broadcaster_user_login":"foo"}}}"#,
    );
    assert_eq!(
        handle_ws_message(&frame),
        Inbound::Offline(StreamOffline { broadcaster_user_login: "foo".to_string() })
    );
}

#[test]
fn control_frames_are_ignored() {
    assert_eq!(handle_ws_message(&WsFrame::Close), Inbound::Ignored);
    assert_eq!(handle_ws_message(&WsFrame::Ping), Inbound::Ignored);
    assert_eq!(handle_ws_message(&WsFrame::Pong), Inbound::Ignored);
    assert_eq!(handle_ws_message(&WsFrame::Other), Inbound::Ignored);
}

#[test]
fn unknown_message_types_are_ignored() {
    let frame = text_frame(r#"{"metadata":{"message_type":"session_keepalive"},"payload":{}}"#);
    assert_eq!(handle_ws_message(&frame), Inbound::Ignored);
    let other = text_frame(
        r#"{"metadata":{"message_type":"notification"},
            "payload":{"subscription":{"type":"channel.follow"},"event":{}}}"#,
    );
    assert_eq!(handle_ws_message(&other), Inbound::Ignored);
    let untyped = text_frame(
        r#"{"metadata":{"message_type":"notification"},
            "payload":{"subscription":{"type":7},"event":{}}}"#,
    );
    assert_eq!(handle_ws_message(&untyped), Inbound::Ignored);
}

#[test]
fn malformed_frames_are_reported() {
    for text in [
        "",
        "not json",
        "[]",
        "{}",
        r#"{"metadata":{"message_type":"notification"}}"#,
        r#"{"metadata":{},"payload":{}}"#,
        r#"{"metadata":{"message_type":5},"payload":{}}"#,
        r#"{"metadata":{"message_type":"session_welcome"},"payload":{}}"#,
        r#"{"metadata":{"message_type":"session_welcome"},"payload":{"session":{"id":5}}}"#,
        r#"{"metadata":{"message_type":"session_reconnect"},"payload":{"session":{"id":"s"}}}"#,
        r#"{"metadata":{"message_type":"notification"},"payload":{"event":{}}}"#,
        r#"{"metadata":{"message_type":"notification"},"payload":{"subscription":{"type":"stream.online"}}}"#,
        r#"{"metadata":{"message_type":"notification"},
            "payload":{"subscription":{"type":"stream.online"},
                       "event":{"broadcaster_user_login":"foo","broadcaster_user_name":"Foo"}}}"#,
        r#"{"metadata":{"message_type":"notification"},
            "payload":{"subscription":{"type":"stream.offline"},"event":{}}}"#,
    ] {
        assert_eq!(handle_ws_message(&text_frame(text)), Inbound::Malformed, "{}", text);
    }
}

#[test]
fn payload_decoders_read_their_own_fields() {
    assert_eq!(
        handle_welcome(&json(r#"{"session":{"id":"abc"}}"#)),
        Inbound::Welcome(SessionWelcome { session: Session { id: "abc".to_string() } })
    );
    assert_eq!(handle_welcome(&json(r#"{"session":"abc"}"#)), Inbound::Malformed);
    assert_eq!(handle_reconnect(&json(r#"{"session":{"reconnect_url":7}}"#)), Inbound::Malformed);
    assert_eq!(handle_notification(&json("7")), Inbound::Malformed);
    assert_eq!(handle_document(None), Inbound::Malformed);
    assert_eq!(handle_document(Some(&json("null"))), Inbound::Malformed);
}

#[test]
fn envelope_keeps_type_and_payload() {
    let document = json(r#"{"metadata":{"message_type":"t"},"payload":{"k":[1,2]}}"#);
    let message = EventSubMessage::from_json(&document).unwrap();
    assert_eq!(message.metadata.message_type, "t");
    assert_eq!(message.payload, json(r#"{"k":[1,2]}"#));
    assert_eq!(handle_message(&message), Inbound::Ignored);
    assert!(EventSubMessage::from_json(&json(r#"{"payload":{}}"#)).is_none());
}
