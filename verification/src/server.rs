//! The server's configuration, and what it answers to a request.
//!
//! Listening, accepting connections and handing them to workers is the
//! caller's part. What is decided here is how many workers there are to be,
//! what is logged at start, how the body of a request is to be read, and
//! which response a request gets.
use crate::auth::Credentials;
use crate::banner::{lemma_banner_fills, BANNER};
use crate::errors::api_error::{json_response, text_view, ApiError, ApiErrorView};
use crate::errors::http_parse_error::HttpParseError;
use crate::http_response::{HttpResponse, ResponseView};
use crate::logger::{Color, LogLine, Logger, Stream};
use crate::multipart::{is_multipart, is_upload};
use crate::number::{decimal, decimal_chars};
use crate::request::{announced_length, body_text, parse_body, parse_http, parse_request};
use crate::router::{outcome_view, Cors, Dispatch, Router, RouterView};
use crate::text::string_of;
use crate::text_map::{map_of, TextMap};
use vstd::prelude::*;

verus! {

/// The port to listen on where none is asked for.
pub const DEFAULT_PORT: u16 = 7878;

/// The number of workers where none is asked for.
pub const DEFAULT_THREADS: usize = 12;

/// The address to bind to where none is asked for.
pub const DEFAULT_ADDRESS: &'static str = "0.0.0.0";

/// What the command line asks for.
#[derive(Debug)]
pub struct Settings {
    pub port: u16,
    pub threads: usize,
    pub cert: Option<String>,
    pub certpass: Option<String>,
    pub silent: bool,
    pub cors: bool,
    pub ip: String,
    pub auth: Option<Credentials>,
    pub compression: bool,
    pub index: Option<String>,
}

/// The configuration of a server, with its router.
pub struct HttpServer<H> {
    port: u16,
    threads: usize,
    cert_path: Option<String>,
    cert_pass: Option<String>,
    router: Router<H>,
    logger: Option<Logger>,
    bind_address: String,
    compression: bool,
}

/// An `HttpServer` without its handlers.
pub struct ServerView {
    pub port: u16,
    pub threads: usize,
    pub cert_path: Option<Seq<char>>,
    pub cert_pass: Option<Seq<char>>,
    pub router: RouterView,
    pub logging: bool,
    pub bind_address: Seq<char>,
    pub compression: bool,
}

impl<H> View for HttpServer<H> {
    type V = ServerView;

    closed spec fn view(&self) -> ServerView {
        ServerView {
            port: self.port,
            threads: self.threads,
            cert_path: text_view(self.cert_path),
            cert_pass: text_view(self.cert_pass),
            router: self.router@,
            logging: self.logger is Some,
            bind_address: self.bind_address@,
            compression: self.compression,
        }
    }
}

/// How the body of a request is to be read.
#[derive(Debug, Clone, Copy, PartialEq, Eq)]
pub enum BodyMode {
    /// The request uploads a file: read the part's header block, then the
    /// file.
    Upload,
    /// Read as many bytes as `Content-Length` announces, if it is there.
    Plain,
}

/// How the body of a request with these headers is to be read.
pub open spec fn body_mode_of(headers: Map<Seq<char>, Seq<char>>) -> BodyMode {
    if headers.contains_key("Content-Type"@) && is_upload(headers["Content-Type"@]) {
        BodyMode::Upload
    } else {
        BodyMode::Plain
    }
}

/// How the body of a request with these headers is to be read.
pub fn body_mode(headers: &TextMap) -> (r: BodyMode)
    ensures
        r == body_mode_of(headers@),
{
    match headers.get("Content-Type") {
        Some(content_type) => if is_multipart(content_type.as_str()) {
            BodyMode::Upload
        } else {
            BodyMode::Plain
        },
        None => BodyMode::Plain,
    }
}

/// The permissive policy that the command line's `cors` stands for.
pub open spec fn permissive_cors() -> Seq<(Seq<char>, Seq<char>)> {
    seq![
        ("Access-Control-Allow-Origin"@, "*"@),
        ("Access-Control-Allow-Methods"@, "GET, POST, PUT, DELETE"@),
        ("Access-Control-Allow-Headers"@, "Content-Type, Authorization"@),
        ("Access-Control-Allow-Credentials"@, "true"@),
    ]
}

/// The response to a request that could not be parsed.
pub open spec fn bad_request(message: Seq<char>) -> ResponseView {
    json_response(400, "Error parsing HTTP request: "@ + message)
}

/// The response that an outcome of the router stands for: an error is
/// answered with the response that it carries.
pub open spec fn settled(outcome: Result<ResponseView, ApiErrorView>) -> ResponseView {
    match outcome {
        Ok(response) => response,
        Err(error) => error.error_response,
    }
}

impl ServerView {
    /// The arguments of the banner.
    pub open spec fn banner_args(self) -> Seq<(Seq<char>, Option<Color>)> {
        seq![
            (decimal(self.port as nat), Some(Color::Yellow)),
            (decimal(self.threads as nat), Some(Color::Yellow)),
            (
                if self.cert_path is Some {
                    "Enabled"@
                } else {
                    "Disabled"@
                },
                Some(Color::Yellow),
            ),
            (
                if self.router.cors is Some {
                    "Enabled"@
                } else {
                    "Disabled"@
                },
                Some(Color::Yellow),
            ),
        ]
    }
}

impl<H> HttpServer<H> {
    /// The handlers of the routes, in order of registration.
    pub closed spec fn handlers(self) -> Seq<H> {
        self.router.handlers()
    }

    /// A server without routes, logger, CORS policy or credentials.
    pub fn build(
        port: u16,
        threads: usize,
        cert_path: Option<String>,
        cert_pass: Option<String>,
        bind_address: String,
        compression: bool,
    ) -> (r: Self)
        ensures
            r@ == (ServerView {
                port,
                threads,
                cert_path: text_view(cert_path),
                cert_pass: text_view(cert_pass),
                router: RouterView {
                    routes: Seq::empty(),
                    cors: None,
                    credentials: None,
                    logging: false,
                },
                logging: false,
                bind_address: bind_address@,
                compression,
            }),
            r.handlers() == Seq::<H>::empty(),
    {
        HttpServer {
            port,
            threads,
            cert_path,
            cert_pass,
            router: Router::new(),
            logger: None,
            bind_address,
            compression,
        }
    }

    /// This server with `router` in place of its own.
    pub fn with_router(self, router: Router<H>) -> (r: Self)
        ensures
            r@ == (ServerView { router: router@, ..self@ }),
            r.handlers() == router.handlers(),
    {
        let mut r = self;
        r.router = router;
        r
    }

    /// This server with a logger, which its router shares.
    pub fn with_logger(self) -> (r: Self)
        ensures
            r@ == (ServerView {
                logging: true,
                router: RouterView { logging: true, ..self@.router },
                ..self@
            }),
            r.handlers() == self.handlers(),
    {
        let HttpServer {
            port,
            threads,
            cert_path,
            cert_pass,
            router,
            logger: _,
            bind_address,
            compression,
        } = self;
        let logger = Logger::new();
        HttpServer {
            port,
            threads,
            cert_path,
            cert_pass,
            router: router.with_logger(Some(logger)),
            logger: Some(logger),
            bind_address,
            compression,
        }
    }

    /// This server with the given CORS policy.
    pub fn with_cors_policy(self, policy: Cors) -> (r: Self)
        ensures
            r@ == (ServerView {
                router: RouterView { cors: Some(policy@), ..self@.router },
                ..self@
            }),
            r.handlers() == self.handlers(),
    {
        let HttpServer {
            port,
            threads,
            cert_path,
            cert_pass,
            router,
            logger,
            bind_address,
            compression,
        } = self;
        HttpServer {
            port,
            threads,
            cert_path,
            cert_pass,
            router: router.with_cors(policy),
            logger,
            bind_address,
            compression,
        }
    }

    /// This server with the given credentials.
    pub fn with_credentials(self, credentials: Credentials) -> (r: Self)
        ensures
            r@ == (ServerView {
                router: RouterView { credentials: Some(credentials@), ..self@.router },
                ..self@
            }),
            r.handlers() == self.handlers(),
    {
        let HttpServer {
            port,
            threads,
            cert_path,
            cert_pass,
            router,
            logger,
            bind_address,
            compression,
        } = self;
        HttpServer {
            port,
            threads,
            cert_path,
            cert_pass,
            router: router.with_credentials(credentials),
            logger,
            bind_address,
            compression,
        }
    }

    /// This server with the routes that `routes` adds to its router.
    pub fn add_routes<F: FnOnce(Router<H>) -> Router<H>>(self, routes: F) -> (r: Self)
        requires
            call_requires(routes, (self.router(),)),
        ensures
            exists|router: Router<H>|
                call_ensures(routes, (self.router(),), router) && r@ == (ServerView {
                    router: router@,
                    ..self@
                }) && r.handlers() == router.handlers(),
    {
        let HttpServer {
            port,
            threads,
            cert_path,
            cert_pass,
            router,
            logger,
            bind_address,
            compression,
        } = self;
        let router = routes(router);
        let ghost produced = router;
        let r = HttpServer {
            port,
            threads,
            cert_path,
            cert_pass,
            router,
            logger,
            bind_address,
            compression,
        };
        assert(call_ensures(routes, (self.router(),), produced) && r@ == (ServerView {
            router: produced@,
            ..self@
        }) && r.handlers() == produced.handlers());
        r
    }

    /// The router of this server.
    pub closed spec fn router(self) -> Router<H> {
        self.router
    }

    /// The router's view is the server's view of it.
    pub proof fn lemma_router(self)
        ensures
            self.router()@ == self@.router,
            self.router().handlers() == self.handlers(),
    {
    }

    /// The router of this server.
    pub fn get_router(&self) -> (r: &Router<H>)
        ensures
            *r == self.router(),
    {
        &self.router
    }

    /// The port to listen on.
    pub fn port(&self) -> (r: u16)
        ensures
            r == self@.port,
    {
        self.port
    }

    /// The address to bind to.
    pub fn bind_address(&self) -> (r: &String)
        ensures
            r@ == self@.bind_address,
    {
        &self.bind_address
    }

    /// The file that holds the TLS identity, where TLS is asked for.
    pub fn cert_path(&self) -> (r: &Option<String>)
        ensures
            text_view(*r) == self@.cert_path,
    {
        &self.cert_path
    }

    /// The password of the TLS identity.
    pub fn cert_pass(&self) -> (r: &Option<String>)
        ensures
            text_view(*r) == self@.cert_pass,
    {
        &self.cert_pass
    }

    /// Whether bodies held in memory are compressed.
    pub fn compression(&self) -> (r: bool)
        ensures
            r == self@.compression,
    {
        self.compression
    }

    /// The logger, where the server logs.
    pub fn logger(&self) -> (r: Option<Logger>)
        ensures
            r is Some <==> self@.logging,
    {
        self.logger
    }

    /// The number of workers to start: the number that was asked for, which
    /// must not be zero.
    pub fn worker_count(&self) -> (r: Result<usize, String>)
        ensures
            self@.threads > 0 ==> r == Ok::<usize, String>(self@.threads),
            self@.threads == 0 ==> (r matches Err(m) && m@
                == "The number of threads must be greater than zero"@),
    {
        if self.threads > 0 {
            Ok(self.threads)
        } else {
            Err("The number of threads must be greater than zero".to_owned())
        }
    }

    /// The lines to log at start, for the standard output stream: the banner
    /// with the port, the number of workers, and whether HTTPS and CORS are
    /// enabled. `None` where the server does not log.
    pub fn server_info(&self) -> (r: Option<LogLine>)
        ensures
            r is Some <==> self@.logging,
            r matches Some(line) ==> line.stream == Stream::Stdout && crate::logger::line(
                BANNER@,
                self@.banner_args(),
            ) == Ok::<crate::logger::Styled, crate::logger::LogFault>(line.text()),
    {
        proof {
            lemma_banner_fills(self@.banner_args());
        }
        match &self.logger {
            Some(logger) => {
                let https = match self.cert_path {
                    Some(_) => "Enabled".to_owned(),
                    None => "Disabled".to_owned(),
                };
                let cors = if self.router.hsa_cors() {
                    "Enabled".to_owned()
                } else {
                    "Disabled".to_owned()
                };
                let port = decimal_chars(self.port as u64);
                let threads = decimal_chars(self.threads as u64);
                let mut args: Vec<(String, Option<Color>)> = Vec::new();
                args.push((string_of(port.as_slice()), Some(Color::Yellow)));
                args.push((string_of(threads.as_slice()), Some(Color::Yellow)));
                args.push((https, Some(Color::Yellow)));
                args.push((cors, Some(Color::Yellow)));
                assert(args.deep_view() =~= self@.banner_args());
                match logger.log_stdout(BANNER, args) {
                    Ok(line) => Some(line),
                    Err(_) => None,
                }
            },
            None => None,
        }
    }
}

/// The server that the command line asks for, before any route is added:
/// with the credentials, if any; with a logger unless `silent` is set; with
/// the permissive CORS policy if `cors` is set.
pub fn build_server<H>(settings: Settings) -> (r: (HttpServer<H>, bool, Option<String>))
    ensures
        r.0@ == (ServerView {
            port: settings.port,
            threads: settings.threads,
            cert_path: text_view(settings.cert),
            cert_pass: text_view(settings.certpass),
            router: RouterView {
                routes: Seq::empty(),
                cors: if settings.cors {
                    Some(permissive_cors())
                } else {
                    None
                },
                credentials: match settings.auth {
                    Some(c) => Some(c@),
                    None => None,
                },
                logging: !settings.silent,
            },
            logging: !settings.silent,
            bind_address: settings.ip@,
            compression: settings.compression,
        }),
        r.0.handlers() == Seq::<H>::empty(),
        r.1 == (settings.auth is Some),
        r.2 == settings.index,
{
    let Settings { port, threads, cert, certpass, silent, cors, ip, auth, compression, index } =
        settings;
    let mut server: HttpServer<H> = HttpServer::build(port, threads, cert, certpass, ip, compression);
    let authorize = auth.is_some();
    match auth {
        Some(credentials) => {
            server = server.with_credentials(credentials);
        },
        None => {},
    }
    if !silent {
        server = server.with_logger();
    }
    if cors {
        let policy = Cors::new().with_origins("*").with_methods("GET, POST, PUT, DELETE").with_headers(
            "Content-Type, Authorization",
        ).with_credentials("true");
        assert(policy@ =~= permissive_cors());
        server = server.with_cors_policy(policy);
    }
    (server, authorize, index)
}

/// A request of which the head has been read and the body is still to be
/// read.
#[derive(Debug)]
pub struct Request {
    pub method: String,
    pub target: String,
    pub headers: TextMap,
    /// The number of body bytes to read.
    pub length: usize,
}

/// What is to be done once the head of a request has been read.
#[derive(Debug)]
pub enum Opening {
    /// Answer with this response and read no further.
    Reject(HttpResponse),
    /// The request with these headers asks for the WebSocket upgrade.
    Upgrade(TextMap),
    /// The request with these headers uploads a file.
    Upload(TextMap),
    /// Read the body, then answer the request.
    Read(Request),
}

/// An `Opening` as a mathematical value.
pub enum OpeningView {
    Reject(ResponseView),
    Upgrade(Map<Seq<char>, Seq<char>>),
    Upload(Map<Seq<char>, Seq<char>>),
    Read { method: Seq<char>, target: Seq<char>, headers: Map<Seq<char>, Seq<char>>, length: usize },
}

impl View for Opening {
    type V = OpeningView;

    open spec fn view(&self) -> OpeningView {
        match self {
            Opening::Reject(response) => OpeningView::Reject(response@),
            Opening::Upgrade(headers) => OpeningView::Upgrade(headers@),
            Opening::Upload(headers) => OpeningView::Upload(headers@),
            Opening::Read(request) => OpeningView::Read {
                method: request.method@,
                target: request.target@,
                headers: request.headers@,
                length: request.length,
            },
        }
    }
}

/// What is to be done once the head `request` has been read.
///
/// A head that cannot be parsed is answered with status 400. A request that
/// asks for the WebSocket upgrade is upgraded; a request whose content type
/// is `multipart/form-data` is an upload. Of any other request, as many body
/// bytes are read as `Content-Length` announces, none without that header; a
/// `Content-Length` that is no number is answered with status 500.
pub open spec fn opening(request: Seq<char>) -> OpeningView {
    match parse_request(request) {
        None => OpeningView::Reject(bad_request(HttpParseError::default_message())),
        Some((method, target, entries)) => {
            let headers = map_of(entries);
            if crate::websockets::asks_upgrade(headers) {
                OpeningView::Upgrade(headers)
            } else if body_mode_of(headers) == BodyMode::Upload {
                OpeningView::Upload(headers)
            } else {
                match announced_length(headers) {
                    Err(fault) => OpeningView::Reject(json_response(500, fault.message())),
                    Ok(Some(length)) => OpeningView::Read { method, target, headers, length },
                    Ok(None) => OpeningView::Read { method, target, headers, length: 0 },
                }
            }
        },
    }
}

/// What is to be done once the head `request` has been read.
pub fn open_request(request: &str) -> (r: Opening)
    ensures
        r@ == opening(request@),
{
    let (method, target, headers) = match parse_http(request) {
        Ok(parsed) => parsed,
        Err(error) => {
            return Opening::Reject(reject(error));
        },
    };
    proof {
        headers.lemma_view();
    }
    if crate::websockets::wants_upgrade(&headers) {
        return Opening::Upgrade(headers);
    }
    match body_mode(&headers) {
        BodyMode::Upload => {
            return Opening::Upload(headers);
        },
        BodyMode::Plain => {},
    }
    match crate::request::body_length(&headers) {
        Ok(Some(length)) => Opening::Read(Request { method, target, headers, length }),
        Ok(None) => Opening::Read(Request { method, target, headers, length: 0 }),
        Err(error) => Opening::Reject(settle(Err(error))),
    }
}

/// The response to a request that could not be parsed: status 400.
pub fn reject(error: HttpParseError) -> (r: HttpResponse)
    ensures
        r@ == bad_request(error.message@),
{
    let ApiError { error_response, method: _, path: _ } = ApiError::from_parse_error(error);
    error_response
}

/// The response that an outcome of the router stands for.
pub fn settle(outcome: Result<HttpResponse, ApiError>) -> (r: HttpResponse)
    ensures
        r@ == settled(outcome_view(outcome)),
{
    match outcome {
        Ok(response) => response,
        Err(error) => {
            let ApiError { error_response, method: _, path: _ } = error;
            error_response
        },
    }
}

impl<H: Fn(Option<&str>, TextMap) -> Result<HttpResponse, ApiError>> HttpServer<H> {
    /// Whether every handler accepts every body and every set of parameters.
    pub open spec fn handlers_are_total(self) -> bool {
        forall|i: int, body: Option<&str>, params: TextMap|
            0 <= i < self.handlers().len() ==> #[trigger] call_requires(
                self.handlers()[i],
                (body, params),
            )
    }

    /// Whether `response` is a response of this server to a request that is
    /// no upload, of which `data` was read after the head.
    ///
    /// A `Content-Length` that is no number is answered with status 500.
    /// Otherwise the router decides. Where it calls a handler, the handler
    /// receives as body the text of the bytes that `Content-Length`
    /// announces, or no body without that header, and what it returns goes
    /// through the router's `finish`. An error is answered with the response
    /// that it carries.
    pub open spec fn answers(
        self,
        method: Seq<char>,
        target: Seq<char>,
        headers: Map<Seq<char>, Seq<char>>,
        data: Seq<u8>,
        response: ResponseView,
    ) -> bool {
        match announced_length(headers) {
            Err(fault) => response == json_response(500, fault.message()),
            Ok(length) => match self@.router.dispatch(target, method, headers) {
                Dispatch::Respond(direct) => response == direct,
                Dispatch::Fail(error) => response == error.error_response,
                Dispatch::Invoke(index, entries) => exists|
                    body: Option<&str>,
                    params: TextMap,
                    outcome: Result<HttpResponse, ApiError>,
                |
                    {
                        &&& match length {
                            Some(n) => body matches Some(text) && text@ == body_text(n, data),
                            None => body is None,
                        }
                        &&& params.entries() == entries
                        &&& #[trigger] call_ensures(self.handlers()[index], (body, params), outcome)
                        &&& response == settled(
                            self@.router.finish(target, method, outcome_view(outcome)),
                        )
                    },
            },
        }
    }

    /// The response to a request that is no upload, of which `data` was read
    /// after the head.
    pub fn answer(&self, method: &str, target: &str, headers: &TextMap, data: &[u8]) -> (r:
        HttpResponse)
        requires
            self.handlers_are_total(),
        ensures
            self.answers(method@, target@, headers@, data@, r@),
    {
        let body = match parse_body(headers, data) {
            Ok(body) => body,
            Err(error) => {
                return settle(Err(error));
            },
        };
        let text: Option<&str> = match &body {
            Some(text) => Some(text.as_str()),
            None => None,
        };
        assert(self.handlers() == self.router.handlers());
        let routed = self.router.route(target, method, text, headers);
        proof {
            match self@.router.dispatch(target@, method@, headers@) {
                Dispatch::Invoke(index, entries) => {
                    let (params, outcome) = choose|
                        params: TextMap,
                        outcome: Result<HttpResponse, ApiError>,
                    |
                        params.entries() == entries && call_ensures(
                            self.router.handlers()[index],
                            (text, params),
                            outcome,
                        ) && outcome_view(routed) == self@.router.finish(
                            target@,
                            method@,
                            outcome_view(outcome),
                        );
                    assert(call_ensures(self.handlers()[index], (text, params), outcome));
                },
                _ => {},
            }
        }
        settle(routed)
    }

    /// The response to the request whose head is `request`, where the
    /// request is no upload and `data` was read after the head. A head that
    /// cannot be parsed is answered with status 400.
    pub fn respond(&self, request: &str, data: &[u8]) -> (r: HttpResponse)
        requires
            self.handlers_are_total(),
        ensures
            match parse_request(request@) {
                None => r@ == bad_request(HttpParseError::default_message()),
                Some((method, target, entries)) => self.answers(
                    method,
                    target,
                    map_of(entries),
                    data@,
                    r@,
                ),
            },
    {
        match parse_http(request) {
            Ok(parsed) => {
                proof {
                    parsed.2.lemma_view();
                }
                self.answer(parsed.0.as_str(), parsed.1.as_str(), &parsed.2, data)
            },
            Err(error) => reject(error),
        }
    }
}

} // verus!
