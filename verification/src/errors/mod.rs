//! The two kinds of error: malformed input, and a failure that carries the
//! response to send.
pub mod api_error;
pub mod http_parse_error;
pub mod io_error;
