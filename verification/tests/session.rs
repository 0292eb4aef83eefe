use stream_alerts::state::SessionIdentity;
use stream_alerts::twitch::eventsub::{Inbound, WsFrame};
use stream_alerts::twitch::session::{
    start_eventsub_task, Phase, SessionAction, SessionEvent, SessionManager,
};
use stream_alerts::twitch::types::{
    ReconnectSession, Session, SessionReconnect, SessionWelcome, StreamOffline, StreamOnline,
};

fn welcome(id: &str) -> Inbound {
    Inbound::Welcome(SessionWelcome { session: Session { id: id.to_string() } })
}

fn reconnect(url: &str) -> Inbound {
    Inbound::Reconnect(SessionReconnect {
        session: ReconnectSession { reconnect_url: url.to_string() },
    })
}

fn online(login: &str, name: &str) -> StreamOnline {
    StreamOnline {
        broadcaster_user_id: "1".to_string(),
        broadcaster_user_login: login.to_string(),
        broadcaster_user_name: name.to_string(),
    }
}

fn offline(login: &str) -> Inbound {
    Inbound::Offline(StreamOffline { broadcaster_user_login: login.to_string() })
}

fn streaming(session_id: &str) -> SessionManager {
    let manager = SessionManager::new();
    let (manager, action) = manager.step(SessionEvent::Dial);
    assert_eq!(
        action,
        SessionAction::Connect { url: "wss://eventsub.wss.twitch.tv/ws".to_string() }
    );
    let (manager, action) = manager.step(SessionEvent::Connected);
    assert_eq!(action, SessionAction::AwaitFrame);
    let (manager, action) = manager.step(SessionEvent::Frame(welcome(session_id)));
    assert_eq!(action, SessionAction::Reconcile { session_id: session_id.to_string() });
    assert_eq!(*manager.phase(), Phase::Welcomed);
    let (manager, action) = manager.step(SessionEvent::Reconciled);
    assert_eq!(action, SessionAction::AwaitFrame);
    assert_eq!(*manager.phase(), Phase::Streaming);
    manager
}

#[test]
fn session_goes_from_dial_to_streaming() {
    let manager = SessionManager::new();
    assert_eq!(*manager.phase(), Phase::Disconnected);
    assert_eq!(*manager.identity(), None);
    let manager = streaming("s1");
    assert_eq!(
        *manager.identity(),
        Some(SessionIdentity { session_id: "s1".to_string(), live: true })
    );
}

#[test]
fn reconnect_message_redirects_once_and_clears_online_set() {
    let manager = streaming("s1");
    let (manager, action) = manager.step(SessionEvent::Frame(Inbound::Online(online("foo", "Foo"))));
    assert_eq!(
        action,
        SessionAction::Notify { channel: "foo".to_string(), event: online("foo", "Foo") }
    );
    assert!(manager.is_online("foo"));

    let (manager, action) = manager.step(SessionEvent::Frame(reconnect("wss://new")));
    assert_eq!(action, SessionAction::Wait { seconds: 5 });
    assert_eq!(*manager.phase(), Phase::Reconnecting { url: "wss://new".to_string() });
    assert_eq!(
        *manager.identity(),
        Some(SessionIdentity { session_id: "s1".to_string(), live: false })
    );

    let (manager, action) = manager.step(SessionEvent::Dial);
    assert_eq!(action, SessionAction::Connect { url: "wss://new".to_string() });
    let (manager, action) = manager.step(SessionEvent::Connected);
    assert_eq!(action, SessionAction::AwaitFrame);
    assert!(!manager.is_online("foo"));

    let (manager, action) = manager.step(SessionEvent::Frame(welcome("s2")));
    assert_eq!(action, SessionAction::Reconcile { session_id: "s2".to_string() });
    let (manager, _) = manager.step(SessionEvent::Reconciled);
    let (manager, action) = manager.step(SessionEvent::Frame(Inbound::Online(online("foo", "Foo"))));
    assert_eq!(
        action,
        SessionAction::Notify { channel: "foo".to_string(), event: online("foo", "Foo") }
    );

    let (manager, action) = manager.step(SessionEvent::Closed);
    assert_eq!(action, SessionAction::Wait { seconds: 5 });
    let (_, action) = manager.step(SessionEvent::Dial);
    assert_eq!(
        action,
        SessionAction::Connect { url: "wss://eventsub.wss.twitch.tv/ws".to_string() }
    );
}

#[test]
fn repeated_online_event_notifies_once() {
    let manager = streaming("s1");
    let (manager, first) = manager.step(SessionEvent::Frame(Inbound::Online(online("foo", "Foo"))));
    let (manager, second) = manager.step(SessionEvent::Frame(Inbound::Online(online("foo", "Foo"))));
    let (manager, third) = manager.step(SessionEvent::Frame(Inbound::Online(online("FOO", "Foo"))));
    assert!(matches!(first, SessionAction::Notify { .. }));
    assert_eq!(second, SessionAction::AwaitFrame);
    assert_eq!(third, SessionAction::AwaitFrame);
    let (manager, action) = manager.step(SessionEvent::Frame(offline("Foo")));
    assert_eq!(action, SessionAction::AwaitFrame);
    assert!(!manager.is_online("foo"));
    let (_, again) = manager.step(SessionEvent::Frame(Inbound::Online(online("foo", "Foo"))));
    assert!(matches!(again, SessionAction::Notify { .. }));
}

#[test]
fn login_is_lowercased_for_the_channel_but_kept_in_the_event() {
    let manager = streaming("s1");
    let (manager, action) =
        manager.step(SessionEvent::Frame(Inbound::Online(online("MixedCase", "Mixed"))));
    assert_eq!(
        action,
        SessionAction::Notify {
            channel: "mixedcase".to_string(),
            event: online("MixedCase", "Mixed"),
        }
    );
    assert!(manager.is_online("mixedcase"));
    assert!(!manager.is_online("MixedCase"));
}

#[test]
fn notifications_before_streaming_are_passed_over() {
    let manager = SessionManager::new();
    let (manager, _) = manager.step(SessionEvent::Dial);
    let (manager, _) = manager.step(SessionEvent::Connected);
    let (manager, action) = manager.step(SessionEvent::Frame(Inbound::Online(online("foo", "Foo"))));
    assert_eq!(action, SessionAction::AwaitFrame);
    assert!(!manager.is_online("foo"));
    assert_eq!(*manager.phase(), Phase::Connecting { established: true });
    let (manager, _) = manager.step(SessionEvent::Frame(welcome("s")));
    let (manager, action) = manager.step(SessionEvent::Frame(Inbound::Online(online("foo", "Foo"))));
    assert_eq!(action, SessionAction::AwaitFrame);
    assert!(!manager.is_online("foo"));
    assert_eq!(*manager.phase(), Phase::Welcomed);
}

#[test]
fn repeated_welcome_is_passed_over() {
    let manager = streaming("s1");
    let (manager, action) = manager.step(SessionEvent::Frame(welcome("s2")));
    assert_eq!(action, SessionAction::AwaitFrame);
    assert_eq!(*manager.phase(), Phase::Streaming);
    assert_eq!(
        *manager.identity(),
        Some(SessionIdentity { session_id: "s1".to_string(), live: true })
    );
}

#[test]
fn malformed_frame_is_dropped_and_the_connection_goes_on() {
    let manager = streaming("s1");
    let (manager, action) = manager.handle_frame(&WsFrame::Text("{".to_string()));
    assert_eq!(action, SessionAction::DropFrame);
    assert_eq!(*manager.phase(), Phase::Streaming);
    let (manager, action) = manager.handle_frame(&WsFrame::Ping);
    assert_eq!(action, SessionAction::AwaitFrame);
    assert_eq!(*manager.phase(), Phase::Streaming);
}

#[test]
fn frames_from_the_socket_drive_the_session() {
    let manager = SessionManager::new();
    let (manager, _) = manager.step(SessionEvent::Dial);
    let (manager, _) = manager.step(SessionEvent::Connected);
    let (manager, action) = manager.handle_frame(&WsFrame::Text(
        r#"{"metadata":{"message_type":"session_welcome"},"payload":{"session":{"id":"abc"}}}"#
            .to_string(),
    ));
    assert_eq!(action, SessionAction::Reconcile { session_id: "abc".to_string() });
    let (manager, _) = manager.step(SessionEvent::Reconciled);
    let (manager, action) = manager.handle_frame(&WsFrame::Text(
        r#"{"metadata":{"message_type":"notification"},
            "payload":{"subscription":{"type":"stream.online"},
                       "event":{"broadcaster_user_id":"42","broadcaster_user_login":"Foo",
                                "broadcaster_user_name":"Foo"}}}"#
            .to_string(),
    ));
    assert_eq!(
        action,
        SessionAction::Notify {
            channel: "foo".to_string(),
            event: StreamOnline {
                broadcaster_user_id: "42".to_string(),
                broadcaster_user_login: "Foo".to_string(),
                broadcaster_user_name: "Foo".to_string(),
            },
        }
    );
    let (manager, action) = manager.handle_frame(&WsFrame::Text(
        r#"{"metadata":{"message_type":"session_reconnect"},
            "payload":{"session":{"reconnect_url":"wss://new"}}}"#
            .to_string(),
    ));
    assert_eq!(action, SessionAction::Wait { seconds: 5 });
    let (_, action) = manager.step(SessionEvent::Dial);
    assert_eq!(action, SessionAction::Connect { url: "wss://new".to_string() });
}

#[test]
fn failed_dial_waits_and_dials_the_default_again() {
    let manager = SessionManager::new();
    let (manager, _) = manager.step(SessionEvent::Dial);
    let (manager, action) = manager.step(SessionEvent::TransportError);
    assert_eq!(action, SessionAction::Wait { seconds: 5 });
    assert_eq!(*manager.phase(), Phase::Disconnected);
    let (_, action) = manager.step(SessionEvent::Dial);
    assert_eq!(
        action,
        SessionAction::Connect { url: "wss://eventsub.wss.twitch.tv/ws".to_string() }
    );
}

#[test]
fn events_out_of_place_change_nothing() {
    let manager = SessionManager::new();
    let (manager, action) = manager.step(SessionEvent::Connected);
    assert_eq!(action, SessionAction::Nothing);
    let (manager, action) = manager.step(SessionEvent::Reconciled);
    assert_eq!(action, SessionAction::Nothing);
    let (manager, action) = manager.step(SessionEvent::Frame(welcome("s")));
    assert_eq!(action, SessionAction::Nothing);
    let (manager, action) = manager.step(SessionEvent::Closed);
    assert_eq!(action, SessionAction::Nothing);
    assert_eq!(*manager.phase(), Phase::Disconnected);
    let manager = streaming("s");
    let (manager, action) = manager.step(SessionEvent::Dial);
    assert_eq!(action, SessionAction::Nothing);
    assert_eq!(*manager.phase(), Phase::Streaming);
}

#[test]
fn shutdown_stops_for_good() {
    let manager = streaming("s1");
    let (manager, action) = manager.step(SessionEvent::Shutdown);
    assert_eq!(action, SessionAction::Stop);
    assert_eq!(*manager.phase(), Phase::Stopped);
    assert_eq!(
        *manager.identity(),
        Some(SessionIdentity { session_id: "s1".to_string(), live: false })
    );
    let (manager, action) = manager.step(SessionEvent::Dial);
    assert_eq!(action, SessionAction::Stop);
    let (manager, action) = manager.step(SessionEvent::Frame(welcome("x")));
    assert_eq!(action, SessionAction::Stop);
    assert_eq!(*manager.phase(), Phase::Stopped);
}

#[test]
fn session_starts_by_dialling_the_default_address() {
    let (manager, action) = start_eventsub_task();
    assert_eq!(
        action,
        SessionAction::Connect { url: "wss://eventsub.wss.twitch.tv/ws".to_string() }
    );
    assert_eq!(*manager.phase(), Phase::Connecting { established: false });
    assert_eq!(*manager.identity(), None);
}
