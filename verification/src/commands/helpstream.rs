//! The help command.

use vstd::prelude::*;
use vstd::string::*;

verus! {

/// The help text.
pub open spec fn help_text() -> Seq<char> {
    "**Stream Notification Bot**\n\n**Commands** (Server owner only):\n\n`!addstream <channel>` - Monitor a Twitch channel\n`!addstream <channel> <message>` - Monitor with custom notification\n`!removestream <channel>` - Stop monitoring a channel\n`!liststreams` - View monitored channels\n`!helpstream` - Show this help message\n\n**Custom Messages:**\nUse `{channel}` for streamer name and `{url}` for stream link.\n\n**Example:**\n`!addstream mychannel \u{1F534} {channel} is live! {url}`"@
}

/// Answers the help command.
pub fn helpstream() -> (reply: String)
    ensures
        reply@ == help_text(),
{
    String::from_str(
        "**Stream Notification Bot**\n\n**Commands** (Server owner only):\n\n`!addstream <channel>` - Monitor a Twitch channel\n`!addstream <channel> <message>` - Monitor with custom notification\n`!removestream <channel>` - Stop monitoring a channel\n`!liststreams` - View monitored channels\n`!helpstream` - Show this help message\n\n**Custom Messages:**\nUse `{channel}` for streamer name and `{url}` for stream link.\n\n**Example:**\n`!addstream mychannel \u{1F534} {channel} is live! {url}`",
    )
}

} // verus!
