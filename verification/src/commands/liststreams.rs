//! The list command.

use crate::commands::Place;
use crate::text::{decimal, decimal_of, join_text};
use vstd::prelude::*;
use vstd::string::*;

verus! {

/// One monitored stream of a channel.
#[derive(Debug, Clone, PartialEq, Eq)]
pub struct ListedStream {
    pub channel_name: String,
    pub custom_message: Option<String>,
}

/// The line of one stream; a stream with its own wording is marked.
pub open spec fn stream_line(stream: ListedStream) -> Seq<char> {
    if stream.custom_message is Some {
        "- "@ + stream.channel_name@ + " (custom message)\n"@
    } else {
        "- "@ + stream.channel_name@ + "\n"@
    }
}

/// The lines of the first `count` streams, one after the other.
pub open spec fn stream_lines(streams: Seq<ListedStream>, count: int) -> Seq<char>
    decreases count,
{
    if count <= 0 {
        Seq::empty()
    } else {
        stream_lines(streams, count - 1) + stream_line(streams[count - 1])
    }
}

/// The answer to the list command: outside a server text channel a
/// refusal; with no stream a note; else a heading with the count and one
/// line per stream.
pub open spec fn listing_text(place: Place, streams: Seq<ListedStream>) -> Seq<char> {
    if place is Elsewhere {
        "This command only works in server text channels."@
    } else if streams.len() == 0 {
        "No streams configured for this channel."@
    } else {
        "**Streams in this channel ("@ + decimal_of(streams.len()) + "):**\n"@ + stream_lines(
            streams,
            streams.len() as int,
        )
    }
}

/// Answers the list command for the streams of the place it was given in.
pub fn liststreams(place: &Place, streams: &Vec<ListedStream>) -> (reply: String)
    ensures
        reply@ == listing_text(*place, streams@),
{
    match place {
        Place::Elsewhere => {
            return String::from_str("This command only works in server text channels.");
        },
        _ => {},
    }
    let n: usize = streams.len();
    if n == 0 {
        return String::from_str("No streams configured for this channel.");
    }
    let mut reply = join_text("**Streams in this channel (", decimal(n as u64).as_str());
    reply.append("):**\n");
    let ghost heading = reply@;
    let mut i: usize = 0;
    assert(reply@ =~= heading + stream_lines(streams@, 0));
    while i < n
        invariant
            n == streams@.len(),
            i <= n,
            reply@ == heading + stream_lines(streams@, i as int),
        decreases n - i,
    {
        let stream = &streams[i];
        let ghost before = reply@;
        reply.append("- ");
        reply.append(stream.channel_name.as_str());
        match &stream.custom_message {
            Some(_) => {
                reply.append(" (custom message)\n");
            },
            None => {
                reply.append("\n");
            },
        }
        assert(reply@ =~= before + stream_line(streams@[i as int]));
        i += 1;
        assert(reply@ =~= heading + stream_lines(streams@, i as int));
    }
    reply
}

} // verus!
