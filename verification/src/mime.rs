//! Media types guessed from file names, as the crate `mime_guess` guesses
//! them. Every function in this file is trusted.
use vstd::prelude::*;

verus! {

/// The media type that `mime_guess` gives first for the extension of `name`,
/// or `text/plain` where it knows none.
pub uninterp spec fn media_type_or_text(name: Seq<char>) -> Seq<char>;

/// The media type that `mime_guess` gives first for the extension of `name`,
/// or `application/octet-stream` where it knows none.
pub uninterp spec fn media_type_or_binary(name: Seq<char>) -> Seq<char>;

/// Trusted: `mime_guess::from_path`, then `MimeGuess::first_or_text_plain`,
/// written out as text. No file is looked at.
#[verifier::external_body]
pub(crate) fn guess_or_text(name: &str) -> (r: String)
    ensures
        r@ == media_type_or_text(name@),
{
    mime_guess::from_path(name).first_or_text_plain().to_string()
}

/// Trusted: `mime_guess::from_path`, then
/// `MimeGuess::first_or_octet_stream`, written out as text. No file is looked
/// at.
#[verifier::external_body]
pub(crate) fn guess_or_binary(name: &str) -> (r: String)
    ensures
        r@ == media_type_or_binary(name@),
{
    mime_guess::from_path(name).first_or_octet_stream().to_string()
}

} // verus!
