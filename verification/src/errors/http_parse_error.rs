use crate::errors::io_error::io_error_text;
use vstd::prelude::*;

verus! {

/// A request that could not be read or understood.
#[derive(Debug)]
pub struct HttpParseError {
    pub message: String,
}

impl HttpParseError {
    /// The message of an error that names no particular cause.
    pub open spec fn default_message() -> Seq<char> {
        "An error occurred while parsing the HTTP request"@
    }

    /// An error with the given message.
    pub fn new(message: String) -> (r: Self)
        ensures
            r.message == message,
    {
        HttpParseError { message }
    }
}

impl Default for HttpParseError {
    fn default() -> (r: Self)
        ensures
            r.message@ == HttpParseError::default_message(),
    {
        HttpParseError { message: "An error occurred while parsing the HTTP request".to_owned() }
    }
}

impl From<std::io::Error> for HttpParseError {
    /// The error whose message is the text of `error`.
    fn from(error: std::io::Error) -> (r: HttpParseError) {
        HttpParseError { message: io_error_text(&error) }
    }
}

impl vstd::std_specs::convert::FromSpecImpl<std::io::Error> for HttpParseError {
    open spec fn obeys_from_spec() -> bool {
        false
    }

    open spec fn from_spec(v: std::io::Error) -> Self {
        arbitrary()
    }
}

} // verus!
