//! Timestamps as they are shown.

use vstd::prelude::*;
use chrono::{DateTime, Local};

verus! {

/// What `DateTime::parse_from_rfc3339` decides of the text `s`: whether it is
/// a date and time in the form of RFC 3339.
pub uninterp spec fn is_rfc3339(s: Seq<char>) -> bool;

/// `DateTime::parse_from_rfc3339`, and for a text that parses
/// `DateTime::with_timezone` into the machine's time zone and
/// `DateTime::format` with `pattern`. A text comes back exactly when the
/// input parses; what it reads depends on the time zone of the machine, so
/// nothing is claimed of it. The pattern is held to the one the display
/// uses, which the formatter accepts.
#[verifier::external_body]
fn local_time_text(value: &str, pattern: &str) -> (text: Option<String>)
    requires
        pattern@ == "%Y-%m-%d %H:%M:%S"@,
    ensures
        text is Some <==> is_rfc3339(value@),
{
    match DateTime::parse_from_rfc3339(value) {
        Ok(timestamp) => Some(timestamp.with_timezone(&Local).format(pattern).to_string()),
        Err(_) => None,
    }
}

/// What is shown for a stored timestamp, given its local rendering if it has
/// one: the rendering, else the stored text as it is.
pub fn display_time_or_raw(value: &str, local: Option<String>) -> (shown: String)
    ensures
        shown@ == match local {
            Some(text) => text@,
            None => value@,
        },
{
    match local {
        Some(text) => text,
        None => String::from_str(value),
    }
}

/// The timestamp as it is shown: date and time of day in the machine's time
/// zone for a text in the form of RFC 3339, and any other text unchanged.
pub fn format_display_time(value: &str) -> (shown: String)
    ensures
        !is_rfc3339(value@) ==> shown@ == value@,
{
    let local = local_time_text(value, "%Y-%m-%d %H:%M:%S");
    display_time_or_raw(value, local)
}

} // verus!
