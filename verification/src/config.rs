//! Fixed delays and limits, and the one setting an operator may change.

use vstd::prelude::*;

verus! {

/// Pause between two channels of one reconciliation pass, in milliseconds.
pub const RATE_LIMIT_DELAY_MS: u64 = 100;

/// Pause before the event stream is dialled again, in seconds.
pub const RECONNECT_DELAY_SECS: u64 = 5;

/// How often a failed upstream lookup is tried again.
pub const MAX_API_RETRIES: u32 = 3;

/// The delay that the retry schedule doubles, in milliseconds.
pub const RETRY_BASE_DELAY_MS: u64 = 100;

/// How many streams one user may register when nothing else is configured.
pub const DEFAULT_MAX_STREAMS_PER_USER: i64 = 3;

/// The operator's settings.
#[derive(Debug, Clone, PartialEq, Eq)]
pub struct Config {
    pub max_streams_per_user: i64,
}

/// The number a text denotes, as `str::parse::<i64>` reads it.
pub uninterp spec fn parsed_i64(text: Seq<char>) -> Option<i64>;

/// `std::num::ParseIntError`, taken as opaque.
#[verifier::external_type_specification]
#[verifier::external_body]
pub struct ExParseIntError(std::num::ParseIntError);

/// Calls `str::parse::<i64>`. The outcome depends on the text alone, so it
/// is named: a text that is a number gives it, any other text an error.
#[verifier::external_body]
fn parse_i64(text: &str) -> (parsed: Result<i64, std::num::ParseIntError>)
    ensures
        match parsed {
            Ok(number) => parsed_i64(text@) == Some(number),
            Err(_) => parsed_i64(text@) is None,
        },
{
    text.parse::<i64>()
}

/// The limit a setting asks for: the number it parses to, or the default
/// when there is no setting or it is no number.
pub open spec fn limit_from(setting: Option<Seq<char>>) -> i64 {
    match setting {
        Some(text) => match parsed_i64(text) {
            Some(number) => number,
            None => DEFAULT_MAX_STREAMS_PER_USER,
        },
        None => DEFAULT_MAX_STREAMS_PER_USER,
    }
}

impl Config {
    /// The configuration for a given value of the stream-limit setting.
    pub fn from_setting(setting: Option<&str>) -> (config: Config)
        ensures
            config.max_streams_per_user == limit_from(
                match setting {
                    Some(text) => Some(text@),
                    None => None,
                },
            ),
    {
        match setting {
            Some(text) => match parse_i64(text) {
                Ok(number) => Config::with_limit(Some(number)),
                Err(_) => Config::with_limit(None),
            },
            None => Config::with_limit(None),
        }
    }

    /// The configuration for a limit that may be missing.
    pub fn with_limit(limit: Option<i64>) -> (config: Config)
        ensures
            config.max_streams_per_user == match limit {
                Some(number) => number,
                None => DEFAULT_MAX_STREAMS_PER_USER,
            },
    {
        match limit {
            Some(number) => Config { max_streams_per_user: number },
            None => Config { max_streams_per_user: DEFAULT_MAX_STREAMS_PER_USER },
        }
    }
}

} // verus!
