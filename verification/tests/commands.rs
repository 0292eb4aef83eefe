use stream_alerts::commands::addstream::{
    addstream, authorize_addition, check_limit, check_lookup, insert_reply,
    is_valid_channel_name, AddReply, AddRequest,
};
use stream_alerts::commands::helpstream::helpstream;
use stream_alerts::commands::liststreams::{liststreams, ListedStream};
use stream_alerts::commands::removestream::{
    authorize_removal, check_stream_owner, removal_reply, removestream, should_unsubscribe,
    Removal, RemoveReply,
};
use stream_alerts::commands::{check_access, Access, Commands, Place};
use stream_alerts::error::Error;

fn owned_by(owner: &str) -> Place {
    Place::TextChannel { owner: owner.to_string() }
}

#[test]
fn prefix_is_the_exclamation_mark() {
    assert_eq!(Commands.get_prefix(), vec!["!".to_string()]);
}

#[test]
fn add_command_is_read_word_by_word() {
    assert_eq!(
        addstream("!addstream SomeChannel"),
        Ok(AddRequest { channel_name: "somechannel".to_string(), custom_message: None })
    );
    assert_eq!(
        addstream("  !addstream   foo_1   {channel}  is   live!\t{url} \n"),
        Ok(AddRequest {
            channel_name: "foo_1".to_string(),
            custom_message: Some("{channel} is live! {url}".to_string()),
        })
    );
    assert_eq!(
        addstream("!addstream foo hello"),
        Ok(AddRequest {
            channel_name: "foo".to_string(),
            custom_message: Some("hello".to_string()),
        })
    );
}

#[test]
fn add_command_without_channel_gets_the_usage() {
    assert_eq!(addstream("!addstream"), Err(AddReply::Usage));
    assert_eq!(addstream(""), Err(AddReply::Usage));
    assert_eq!(addstream("   "), Err(AddReply::Usage));
}

#[test]
fn add_command_with_bad_name_is_turned_down() {
    assert_eq!(addstream("!addstream foo-bar"), Err(AddReply::InvalidName));
    assert_eq!(addstream("!addstream foo.bar msg"), Err(AddReply::InvalidName));
    assert_eq!(
        addstream("!addstream abcdefghijklmnopqrstuvwxyz"),
        Err(AddReply::InvalidName)
    );
}

#[test]
fn channel_names_have_one_to_twenty_five_word_characters() {
    assert!(is_valid_channel_name("a"));
    assert!(is_valid_channel_name("foo_bar_42"));
    assert!(is_valid_channel_name("abcdefghijklmnopqrstuvwxy"));
    assert!(!is_valid_channel_name("abcdefghijklmnopqrstuvwxyz"));
    assert!(!is_valid_channel_name(""));
    assert!(!is_valid_channel_name("foo bar"));
    assert!(!is_valid_channel_name("foo!"));
    assert!(is_valid_channel_name("_"));
}

#[test]
fn only_the_server_owner_may_change_streams() {
    assert_eq!(check_access("u1", &owned_by("u1")), Access::Granted);
    assert_eq!(check_access("u2", &owned_by("u1")), Access::NotOwner);
    assert_eq!(check_access("u1", &Place::Elsewhere), Access::NotTextChannel);
    assert_eq!(authorize_addition(Some("u1"), &owned_by("u1")), None);
    assert_eq!(authorize_addition(Some("u2"), &owned_by("u1")), Some(AddReply::NotOwner));
    assert_eq!(authorize_addition(Some("u1"), &Place::Elsewhere), Some(AddReply::NotTextChannel));
    assert_eq!(authorize_addition(None, &owned_by("u1")), Some(AddReply::NoUser));
    assert_eq!(authorize_removal(Some("u1"), &owned_by("u1")), None);
    assert_eq!(authorize_removal(Some("u2"), &owned_by("u1")), Some(RemoveReply::NotOwner));
    assert_eq!(
        authorize_removal(Some("u1"), &Place::Elsewhere),
        Some(RemoveReply::NotTextChannel)
    );
    assert_eq!(authorize_removal(None, &Place::Elsewhere), Some(RemoveReply::NoUser));
}

#[test]
fn limit_is_reached_at_the_maximum() {
    assert_eq!(check_limit(2, 3), None);
    assert_eq!(check_limit(3, 3), Some(AddReply::LimitReached { max: 3 }));
    assert_eq!(check_limit(4, 3), Some(AddReply::LimitReached { max: 3 }));
    assert_eq!(check_limit(0, 0), Some(AddReply::LimitReached { max: 0 }));
}

#[test]
fn lookup_decides_whether_the_command_goes_on() {
    assert_eq!(check_lookup("foo", Ok(Some("42".to_string()))), None);
    assert_eq!(
        check_lookup("foo", Ok(None)),
        Some(AddReply::ChannelNotFound { channel: "foo".to_string() })
    );
    assert_eq!(check_lookup("foo", Err(())), Some(AddReply::ValidationFailed));
}

#[test]
fn insert_outcome_picks_the_reply() {
    let plain = AddRequest { channel_name: "foo".to_string(), custom_message: None };
    let custom = AddRequest {
        channel_name: "foo".to_string(),
        custom_message: Some("hi".to_string()),
    };
    assert_eq!(
        insert_reply(&plain, None),
        AddReply::Added { channel: "foo".to_string(), custom: false }
    );
    assert_eq!(
        insert_reply(&custom, None),
        AddReply::Added { channel: "foo".to_string(), custom: true }
    );
    assert_eq!(
        insert_reply(&plain, Some("UNIQUE constraint failed: streams.channel_name")),
        AddReply::AlreadyAdded
    );
    assert_eq!(insert_reply(&plain, Some("disk I/O error")), AddReply::Failed);
}

#[test]
fn add_replies_are_worded() {
    assert_eq!(AddReply::Usage.text(), "Usage: !addstream <channel_name> [custom_message]");
    assert_eq!(
        AddReply::InvalidName.text(),
        "Invalid channel name. Must be alphanumeric or underscores, max 25 characters."
    );
    assert_eq!(AddReply::NoUser.text(), "Unable to identify user.");
    assert_eq!(AddReply::NotOwner.text(), "You must be the server owner to add streams here.");
    assert_eq!(
        AddReply::NotTextChannel.text(),
        "This command only works in server text channels."
    );
    assert_eq!(
        AddReply::LimitReached { max: 3 }.text(),
        "You have reached the maximum limit of 3 streams."
    );
    assert_eq!(
        AddReply::LimitReached { max: -12 }.text(),
        "You have reached the maximum limit of -12 streams."
    );
    assert_eq!(
        AddReply::ChannelNotFound { channel: "foo".to_string() }.text(),
        "Twitch channel 'foo' not found."
    );
    assert_eq!(AddReply::ValidationFailed.text(), "Failed to validate channel with Twitch API.");
    assert_eq!(
        AddReply::Added { channel: "foo".to_string(), custom: false }.text(),
        "Added channel: foo"
    );
    assert_eq!(
        AddReply::Added { channel: "foo".to_string(), custom: true }.text(),
        "Added channel: foo (with custom message)"
    );
    assert_eq!(AddReply::AlreadyAdded.text(), "This channel is already added in this server.");
    assert_eq!(AddReply::Failed.text(), "Failed to add channel.");
}

#[test]
fn remove_command_names_its_channel() {
    assert_eq!(removestream("!removestream FooBar"), Ok("foobar".to_string()));
    assert_eq!(removestream("!removestream foo extra words"), Ok("foo".to_string()));
    assert_eq!(removestream("!removestream"), Err(RemoveReply::Usage));
    assert_eq!(removestream(""), Err(RemoveReply::Usage));
}

#[test]
fn stream_may_be_removed_by_who_added_it() {
    assert_eq!(check_stream_owner(Some("u1"), "u1"), None);
    assert_eq!(check_stream_owner(Some("u2"), "u1"), Some(Removal::NotOwner));
    assert_eq!(check_stream_owner(None, "u1"), Some(Removal::NotFound));
}

#[test]
fn removal_outcome_picks_the_reply() {
    assert_eq!(
        removal_reply("foo", Removal::Deleted),
        RemoveReply::Removed { channel: "foo".to_string() }
    );
    assert_eq!(removal_reply("foo", Removal::Unchanged), RemoveReply::StreamNotFound);
    assert_eq!(removal_reply("foo", Removal::NotOwner), RemoveReply::NotYours);
    assert_eq!(
        removal_reply("foo", Removal::NotFound),
        RemoveReply::NotInChannel { channel: "foo".to_string() }
    );
    assert_eq!(removal_reply("foo", Removal::Failed), RemoveReply::Failed);
}

#[test]
fn remove_replies_are_worded() {
    assert_eq!(RemoveReply::Usage.text(), "Usage: !removestream <channel_name>");
    assert_eq!(RemoveReply::NoUser.text(), "Unable to identify user.");
    assert_eq!(
        RemoveReply::NotOwner.text(),
        "You must be the server owner to remove streams here."
    );
    assert_eq!(
        RemoveReply::NotTextChannel.text(),
        "This command only works in server text channels."
    );
    assert_eq!(
        RemoveReply::Removed { channel: "foo".to_string() }.text(),
        "Removed channel: foo"
    );
    assert_eq!(RemoveReply::StreamNotFound.text(), "Stream not found.");
    assert_eq!(RemoveReply::NotYours.text(), "You can only remove streams you added.");
    assert_eq!(
        RemoveReply::NotInChannel { channel: "foo".to_string() }.text(),
        "Stream foo not found in this channel."
    );
    assert_eq!(RemoveReply::Failed.text(), "Failed to remove stream.");
}

#[test]
fn upstream_subscription_goes_with_the_last_recipient() {
    assert!(should_unsubscribe(0));
    assert!(!should_unsubscribe(1));
    assert!(!should_unsubscribe(17));
}

#[test]
fn streams_are_listed_one_per_line() {
    let streams = vec![
        ListedStream { channel_name: "foo".to_string(), custom_message: None },
        ListedStream { channel_name: "bar".to_string(), custom_message: Some("x".to_string()) },
    ];
    assert_eq!(
        liststreams(&owned_by("u"), &streams),
        "**Streams in this channel (2):**\n- foo\n- bar (custom message)\n"
    );
    assert_eq!(
        liststreams(&owned_by("u"), &Vec::new()),
        "No streams configured for this channel."
    );
    assert_eq!(
        liststreams(&Place::Elsewhere, &streams),
        "This command only works in server text channels."
    );
    let many: Vec<ListedStream> = (0..12)
        .map(|i| ListedStream { channel_name: format!("c{}", i), custom_message: None })
        .collect();
    assert!(liststreams(&owned_by("u"), &many).starts_with("**Streams in this channel (12):**\n- c0\n"));
}

#[test]
fn help_names_every_command() {
    let help = helpstream();
    assert!(help.starts_with("**Stream Notification Bot**\n\n**Commands** (Server owner only):\n\n"));
    for command in ["!addstream <channel>", "!removestream <channel>", "!liststreams", "!helpstream"] {
        assert!(help.contains(command), "{}", command);
    }
    assert!(help.ends_with("`!addstream mychannel \u{1F534} {channel} is live! {url}`"));
}

#[test]
fn errors_are_worded_by_their_source() {
    assert_eq!(Error::DatabaseError("locked".to_string()).message(), "Database error: locked");
    assert_eq!(Error::PoolError("timed out".to_string()).message(), "Pool error: timed out");
    assert_eq!(Error::StoatError("Http".to_string()).message(), "Stoat error: Http");
}
