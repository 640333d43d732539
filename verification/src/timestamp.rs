//! Points in time, held as seconds since the Unix epoch, and the text in
//! which they are shown.

use vstd::prelude::*;
use crate::text::optional_text;

verus! {

/// The text of the point in time `unix_seconds` seconds after the Unix
/// epoch, in UTC and in the form `%Y-%m-%d %H:%M:%S` (year, month, day, hour,
/// minute, second), as the `chrono` crate renders it; `None` where `chrono`
/// cannot represent the point in time.
pub uninterp spec fn timestamp_text(unix_seconds: i64) -> Option<Seq<char>>;

/// Renders a point in time.
///
/// Trusted: calls `chrono::DateTime::from_timestamp` with no nanoseconds,
/// which returns `None` for a number of seconds that is out of its range,
/// and on the date it returns `chrono::DateTime::format` with the format
/// `%Y-%m-%d %H:%M:%S`. The result depends on the number of seconds alone
/// and is named by [`timestamp_text`]; nothing else is claimed of it.
#[verifier::external_body]
fn render_seconds(unix_seconds: i64) -> (r: Option<String>)
    ensures
        optional_text(r) == timestamp_text(unix_seconds),
{
    match chrono::DateTime::from_timestamp(unix_seconds, 0) {
        Some(moment) => Some(moment.format("%Y-%m-%d %H:%M:%S").to_string()),
        None => None,
    }
}

/// The text of a point in time, or `None` where it is out of the range of
/// dates that can be shown.
pub fn format_timestamp(unix_seconds: i64) -> (r: Option<String>)
    ensures
        optional_text(r) == timestamp_text(unix_seconds),
{
    render_seconds(unix_seconds)
}

} // verus!
