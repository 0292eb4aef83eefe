use stream_alerts::state::OnlineChannels;

#[test]
fn mark_online_is_true_once_until_reset() {
    let mut tracker = OnlineChannels::new();
    assert!(tracker.mark_online("foo"));
    assert!(!tracker.mark_online("foo"));
    assert!(!tracker.mark_online("foo"));
    assert!(tracker.mark_online("bar"));
    assert!(!tracker.mark_online("foo"));
    assert!(tracker.is_online("foo"));
    assert!(tracker.is_online("bar"));
}

#[test]
fn reset_forgets_every_channel() {
    let mut tracker = OnlineChannels::new();
    assert!(tracker.mark_online("foo"));
    assert!(tracker.mark_online("bar"));
    tracker.reset();
    assert!(!tracker.is_online("foo"));
    assert!(!tracker.is_online("bar"));
    assert!(tracker.mark_online("foo"));
    assert!(tracker.mark_online("bar"));
}

#[test]
fn mark_offline_is_idempotent() {
    let mut tracker = OnlineChannels::new();
    tracker.mark_offline("foo");
    assert!(!tracker.is_online("foo"));
    assert!(tracker.mark_online("foo"));
    tracker.mark_offline("foo");
    tracker.mark_offline("foo");
    assert!(!tracker.is_online("foo"));
    assert!(tracker.mark_online("foo"));
}

#[test]
fn channels_are_told_apart_by_their_exact_text() {
    let mut tracker = OnlineChannels::new();
    assert!(tracker.mark_online("foo"));
    assert!(tracker.mark_online("Foo"));
    assert!(tracker.mark_online("foo_"));
    assert!(!tracker.mark_online("Foo"));
}
