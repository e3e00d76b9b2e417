//! Regular expressions, as the crate `regex` matches them.
//!
//! A pattern is kept as text and handed to `regex` whenever it is needed; what
//! `regex` makes of it is named here and not interpreted. Every function in
//! this file is trusted.
use vstd::prelude::*;

verus! {

/// Whether `regex` accepts `pattern`.
pub uninterp spec fn regex_compiles(pattern: Seq<char>) -> bool;

/// The names of the capture groups of `pattern`, by group index, `None` for a
/// group without a name; empty where `regex` does not accept `pattern`.
pub uninterp spec fn regex_group_names(pattern: Seq<char>) -> Seq<Option<Seq<char>>>;

/// What the capture groups of `pattern` hold for its leftmost match in
/// `text`, by group index, `None` for a group that took no part in the match;
/// `None` where there is no match or `regex` does not accept `pattern`.
pub uninterp spec fn regex_captures(pattern: Seq<char>, text: Seq<char>) -> Option<
    Seq<Option<Seq<char>>>,
>;

/// Trusted: whether `regex::Regex::new` returns `Ok`.
#[verifier::external_body]
pub(crate) fn compiles(pattern: &str) -> (r: bool)
    ensures
        r == regex_compiles(pattern@),
{
    regex::Regex::new(pattern).is_ok()
}

/// Trusted: `regex::Regex::capture_names` of the compiled pattern, each name
/// copied.
#[verifier::external_body]
pub(crate) fn group_names(pattern: &str) -> (r: Vec<Option<String>>)
    ensures
        r.deep_view() == regex_group_names(pattern@),
{
    match regex::Regex::new(pattern) {
        Ok(re) => re.capture_names().map(|name| name.map(str::to_owned)).collect(),
        Err(_) => Vec::new(),
    }
}

/// Trusted: `regex::Regex::captures` of the compiled pattern, then
/// `Captures::iter`, each matched substring copied.
#[verifier::external_body]
pub(crate) fn captures(pattern: &str, text: &str) -> (r: Option<Vec<Option<String>>>)
    ensures
        r is Some <==> regex_captures(pattern@, text@) is Some,
        r matches Some(groups) ==> groups.deep_view() == regex_captures(pattern@, text@)->0,
{
    let re = regex::Regex::new(pattern).ok()?;
    let found = re.captures(text)?;
    Some(found.iter().map(|group| group.map(|m| m.as_str().to_owned())).collect())
}

} // verus!
