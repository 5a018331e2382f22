//! Publication timestamps of the feed, rewritten for display.

use std::fmt::Write;
use vstd::prelude::*;

verus! {

/// The error of a text that is no timestamp that can be shown.
#[derive(Clone, Copy, Debug, PartialEq, Eq, Structural)]
pub struct InvalidTimestamp;

/// The instant that `chrono` reads from `text` as a `DateTime<Utc>`, in whole
/// seconds since 1970-01-01 00:00:00 UTC; `None` where it returns an error.
pub uninterp spec fn utc_seconds(text: Seq<char>) -> Option<i64>;

/// The text that `chrono` writes for the instant `seconds` in UTC under the
/// `strftime` layout `layout`; `None` where the instant is out of its range
/// or the layout cannot be written.
pub uninterp spec fn utc_text(seconds: i64, layout: Seq<char>) -> Option<Seq<char>>;

/// `chrono::ParseError`, the error of its parsers. It is carried through as
/// it is; nothing is claimed of what it holds.
#[verifier::external_type_specification]
#[verifier::external_body]
pub struct ExChronoParseError(chrono::ParseError);

/// The layout in which a publication time is shown.
pub open spec fn layout_text() -> Seq<char> {
    "%B %d, %Y at %I:%M %p UTC"@
}

/// A feed timestamp as it is shown to the user: the instant read from
/// `text`, written in the display layout.
pub open spec fn github_time(text: Seq<char>) -> Option<Seq<char>> {
    match utc_seconds(text) {
        Some(seconds) => utc_text(seconds, layout_text()),
        None => None,
    }
}

/// Parses `text` with `FromStr` of `chrono::DateTime<Utc>` and hands out
/// `DateTime::timestamp` of the result, or the error. Trusted: the outcome
/// is the one that [`utc_seconds`] names for this text.
#[verifier::external_body]
fn parse_utc(text: &str) -> (r: Result<i64, chrono::ParseError>)
    ensures
        match r {
            Ok(seconds) => utc_seconds(text@) == Some(seconds),
            Err(_) => utc_seconds(text@) is None,
        },
{
    match text.parse::<chrono::DateTime<chrono::Utc>>() {
        Ok(instant) => Ok(instant.timestamp()),
        Err(e) => Err(e),
    }
}

/// Writes the instant `chrono::DateTime::from_timestamp(seconds, 0)` with
/// `chrono::DateTime::format`. Trusted: the outcome is the one that
/// [`utc_text`] names for the instant and the layout.
#[verifier::external_body]
fn format_utc(seconds: i64, layout: &str) -> (r: Option<String>)
    ensures
        match r {
            Some(shown) => utc_text(seconds, layout@) == Some(shown@),
            None => utc_text(seconds, layout@) is None,
        },
{
    let instant = chrono::DateTime::from_timestamp(seconds, 0)?;
    let mut shown = String::new();
    match write!(shown, "{}", instant.format(layout)) {
        Ok(()) => Some(shown),
        Err(_) => None,
    }
}

/// Rewrites a feed timestamp, such as `2024-05-01T09:30:00Z`, for display:
/// month name, day, year, and the time on the twelve-hour clock, in UTC.
/// Fails on a text that is no timestamp.
pub fn format_github_time(input: &str) -> (r: Result<String, InvalidTimestamp>)
    ensures
        match r {
            Ok(shown) => github_time(input@) == Some(shown@),
            Err(_) => github_time(input@) is None,
        },
{
    match parse_utc(input) {
        Ok(seconds) => match format_utc(seconds, "%B %d, %Y at %I:%M %p UTC") {
            Some(shown) => Ok(shown),
            None => Err(InvalidTimestamp),
        },
        Err(_) => Err(InvalidTimestamp),
    }
}

} // verus!
