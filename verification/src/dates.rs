//! Dates as text, as the crate `chrono` writes them.
use crate::errors::api_error::text_view;
use std::fmt::Write;
use vstd::prelude::*;

verus! {

/// The format in which the listing shows when an entry was last modified:
/// day, month and year, then the time of day.
pub const MODIFIED_FORMAT: &'static str = "%d/%m/%Y %T";

/// The text of the moment `seconds` seconds after the start of 1970, in UTC,
/// written in the `strftime` format `format`; `None` where `chrono` cannot
/// represent the moment or does not accept the format.
pub uninterp spec fn utc_text(seconds: i64, format: Seq<char>) -> Option<Seq<char>>;

/// Trusted: `chrono::DateTime::<Utc>::from_timestamp` with no nanoseconds,
/// then `DateTime::format`, written out through `Display`. `None` stands for
/// a moment out of range and for a format that `chrono` refuses.
#[verifier::external_body]
pub(crate) fn format_utc(seconds: i64, format: &str) -> (r: Option<String>)
    ensures
        r is Some <==> utc_text(seconds, format@) is Some,
        r matches Some(text) ==> text@ == utc_text(seconds, format@)->0,
{
    let time = chrono::DateTime::<chrono::Utc>::from_timestamp(seconds, 0)?;
    let mut text = String::new();
    write!(text, "{}", time.format(format)).ok()?;
    Some(text)
}

/// When an entry was last modified, as the listing shows it.
pub open spec fn modified_at(seconds: i64) -> Option<Seq<char>> {
    utc_text(seconds, MODIFIED_FORMAT@)
}

/// When an entry was last modified, as the listing shows it: the moment
/// `seconds` seconds after the start of 1970, in UTC.
pub fn last_modified(seconds: i64) -> (r: Option<String>)
    ensures
        text_view(r) == modified_at(seconds),
{
    format_utc(seconds, MODIFIED_FORMAT)
}

} // verus!
