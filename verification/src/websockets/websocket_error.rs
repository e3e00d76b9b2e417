use crate::errors::io_error::io_error_text;
use crate::number::{decimal, push_decimal};
use crate::text::{extend_str, string_of};
use vstd::prelude::*;

verus! {

/// Trusted declaration of `std::string::FromUtf8Error`, which this crate only
/// carries.
#[verifier::external_type_specification]
#[verifier::external_body]
pub struct ExFromUtf8Error(std::string::FromUtf8Error);

/// What can go wrong on a WebSocket connection.
#[derive(Debug)]
pub enum WebSocketError {
    IoError(std::io::Error),
    HandshakeError(String),
    TextParseError(std::string::FromUtf8Error),
    UnsupportedOpCode(u8),
    FrameParseError(String),
}

/// Trusted: the `Display` form of a `std::string::FromUtf8Error`. Nothing is
/// claimed of the text.
#[verifier::external_body]
fn utf8_error_text(error: &std::string::FromUtf8Error) -> String {
    error.to_string()
}

impl WebSocketError {
    /// The error for a failed read or write.
    pub fn from_io(error: std::io::Error) -> (r: Self)
        ensures
            r == WebSocketError::IoError(error),
    {
        WebSocketError::IoError(error)
    }

    /// The error for a text frame that is not UTF-8.
    pub fn from_utf8(error: std::string::FromUtf8Error) -> (r: Self)
        ensures
            r == WebSocketError::TextParseError(error),
    {
        WebSocketError::TextParseError(error)
    }

    /// The text in front of the detail in this error's description.
    pub open spec fn label(self) -> Seq<char> {
        match self {
            WebSocketError::IoError(_) => "IO error: "@,
            WebSocketError::HandshakeError(_) => "Handshake error: "@,
            WebSocketError::TextParseError(_) => "UTF-8 error: "@,
            WebSocketError::UnsupportedOpCode(_) => "Unsupported opcode: "@,
            WebSocketError::FrameParseError(_) => "Frame parse error: "@,
        }
    }

    /// A one-line description: a label for the kind of error, then its
    /// detail. For the two kinds that wrap an error of the standard library
    /// the detail is that error's own text.
    pub fn describe(&self) -> (r: String)
        ensures
            self.label().is_prefix_of(r@),
            self matches WebSocketError::HandshakeError(m) ==> r@ == self.label() + m@,
            self matches WebSocketError::FrameParseError(m) ==> r@ == self.label() + m@,
            self matches WebSocketError::UnsupportedOpCode(c) ==> r@ == self.label() + decimal(
                c as nat,
            ),
    {
        let mut out: Vec<char> = Vec::new();
        match self {
            WebSocketError::IoError(e) => {
                extend_str(&mut out, "IO error: ");
                let text = io_error_text(e);
                extend_str(&mut out, text.as_str());
            },
            WebSocketError::HandshakeError(m) => {
                extend_str(&mut out, "Handshake error: ");
                extend_str(&mut out, m.as_str());
            },
            WebSocketError::TextParseError(e) => {
                extend_str(&mut out, "UTF-8 error: ");
                let text = utf8_error_text(e);
                extend_str(&mut out, text.as_str());
            },
            WebSocketError::UnsupportedOpCode(c) => {
                extend_str(&mut out, "Unsupported opcode: ");
                push_decimal(&mut out, *c as u64);
            },
            WebSocketError::FrameParseError(m) => {
                extend_str(&mut out, "Frame parse error: ");
                extend_str(&mut out, m.as_str());
            },
        }
        assert(self.label().is_prefix_of(out@)) by {
            assert(out@.subrange(0, self.label().len() as int) =~= self.label());
        }
        string_of(out.as_slice())
    }
}

impl From<std::io::Error> for WebSocketError {
    fn from(error: std::io::Error) -> (r: WebSocketError)
        ensures
            r == WebSocketError::IoError(error),
    {
        WebSocketError::IoError(error)
    }
}

impl vstd::std_specs::convert::FromSpecImpl<std::io::Error> for WebSocketError {
    open spec fn obeys_from_spec() -> bool {
        true
    }

    open spec fn from_spec(v: std::io::Error) -> Self {
        WebSocketError::IoError(v)
    }
}

impl From<std::string::FromUtf8Error> for WebSocketError {
    fn from(error: std::string::FromUtf8Error) -> (r: WebSocketError)
        ensures
            r == WebSocketError::TextParseError(error),
    {
        WebSocketError::TextParseError(error)
    }
}

impl vstd::std_specs::convert::FromSpecImpl<std::string::FromUtf8Error> for WebSocketError {
    open spec fn obeys_from_spec() -> bool {
        true
    }

    open spec fn from_spec(v: std::string::FromUtf8Error) -> Self {
        WebSocketError::TextParseError(v)
    }
}

} // verus!
