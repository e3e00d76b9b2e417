//! An HTTP/1.1 server without a framework under it, as a library of
//! decisions.
//!
//! The library parses requests, routes them, checks credentials, receives
//! uploads, speaks the WebSocket protocol and serializes responses. It opens
//! no socket and no file: whoever uses it reads and writes, and hands the
//! library what was read. Every function of the library is verified against
//! the contract that stands above its body; the few functions that call
//! another crate, and whose contracts are therefore taken on trust, say so in
//! their documentation.
pub mod api;
pub mod auth;
pub mod banner;
pub mod dates;
pub mod default_laws;
pub mod encoding;
pub mod errors;
pub mod http_response;
pub mod listing;
pub mod logger;
pub mod mime;
pub mod multipart;
pub mod number;
pub mod paths;
pub mod pattern;
pub mod request;
pub mod router;
pub mod routing_laws;
pub mod server;
pub mod static_files;
pub mod text;
pub mod text_map;
pub mod tokens;
pub mod websockets;

pub use auth::Credentials;
pub use errors::api_error;
pub use errors::api_error::ApiError;
pub use errors::http_parse_error;
pub use errors::http_parse_error::HttpParseError;
pub use http_response::{Body, FileSource, HttpResponse, WireResponse};
pub use logger::Logger;
pub use router::{Cors, HttpMethod, Route, Router};
pub use server::HttpServer;
pub use static_files::StaticFiles;
pub use text_map::TextMap;
