//! Routes, their patterns, and the dispatch of a request to a handler.
use crate::auth::{authorized, grants, Credentials};
use crate::errors::api_error::{json_response, ApiError, ApiErrorView};
use crate::http_response::{HttpResponse, ResponseView};
use crate::logger::{
    get_status_code_color, lemma_fill_step, plain, status_color, Color, LogLine, Logger, Stream,
    Styled,
};
use crate::number::{decimal, decimal_chars};
use crate::pattern::{
    captures, compiles, group_names, regex_captures, regex_compiles, regex_group_names,
};
use crate::text::{
    chars_of, extend_chars, extend_str, split_once, split_once_chars, str_eq, string_of,
};
use crate::text_map::TextMap;
use crate::tokens::{split, split_chars, texts};
use vstd::prelude::*;

verus! {

/// The request methods that a route can ask for.
#[derive(Debug, Clone, Copy)]
pub enum HttpMethod {
    GET,
    POST,
    PUT,
    DELETE,
    PATCH,
    OPTIONS,
    HEAD,
    TRACE,
    CONNECT,
}

impl HttpMethod {
    /// The method as it stands in a request line.
    pub open spec fn token(self) -> Seq<char> {
        match self {
            HttpMethod::GET => "GET"@,
            HttpMethod::POST => "POST"@,
            HttpMethod::PUT => "PUT"@,
            HttpMethod::DELETE => "DELETE"@,
            HttpMethod::PATCH => "PATCH"@,
            HttpMethod::OPTIONS => "OPTIONS"@,
            HttpMethod::HEAD => "HEAD"@,
            HttpMethod::TRACE => "TRACE"@,
            HttpMethod::CONNECT => "CONNECT"@,
        }
    }

    /// The method as it stands in a request line.
    pub fn as_str(&self) -> (r: &'static str)
        ensures
            r@ == self.token(),
    {
        match self {
            HttpMethod::GET => "GET",
            HttpMethod::POST => "POST",
            HttpMethod::PUT => "PUT",
            HttpMethod::DELETE => "DELETE",
            HttpMethod::PATCH => "PATCH",
            HttpMethod::OPTIONS => "OPTIONS",
            HttpMethod::HEAD => "HEAD",
            HttpMethod::TRACE => "TRACE",
            HttpMethod::CONNECT => "CONNECT",
        }
    }
}

/// The headers that tell a browser which cross-origin requests are allowed,
/// in the order in which they were added.
#[derive(Debug)]
pub struct Cors {
    headers: Vec<(String, String)>,
}

impl View for Cors {
    type V = Seq<(Seq<char>, Seq<char>)>;

    closed spec fn view(&self) -> Seq<(Seq<char>, Seq<char>)> {
        self.headers.deep_view()
    }
}

impl Cors {
    /// A policy without headers.
    pub fn new() -> (r: Self)
        ensures
            r@ == Seq::<(Seq<char>, Seq<char>)>::empty(),
    {
        let r = Cors { headers: Vec::new() };
        assert(r.headers.deep_view() =~= Seq::empty());
        r
    }

    /// This policy with one more header.
    fn with(self, name: &str, value: &str) -> (r: Self)
        ensures
            r@ == self@.push((name@, value@)),
    {
        let mut r = self;
        let ghost before = r.headers.deep_view();
        r.headers.push((name.to_owned(), value.to_owned()));
        assert(r.headers.deep_view() =~= before.push((name@, value@)));
        r
    }

    /// This policy with `Access-Control-Allow-Origin: value` added.
    pub fn with_origins(self, value: &str) -> (r: Self)
        ensures
            r@ == self@.push(("Access-Control-Allow-Origin"@, value@)),
    {
        self.with("Access-Control-Allow-Origin", value)
    }

    /// This policy with `Access-Control-Allow-Methods: value` added.
    pub fn with_methods(self, value: &str) -> (r: Self)
        ensures
            r@ == self@.push(("Access-Control-Allow-Methods"@, value@)),
    {
        self.with("Access-Control-Allow-Methods", value)
    }

    /// This policy with `Access-Control-Allow-Headers: value` added.
    pub fn with_headers(self, value: &str) -> (r: Self)
        ensures
            r@ == self@.push(("Access-Control-Allow-Headers"@, value@)),
    {
        self.with("Access-Control-Allow-Headers", value)
    }

    /// This policy with `Access-Control-Allow-Credentials: value` added.
    pub fn with_credentials(self, value: &str) -> (r: Self)
        ensures
            r@ == self@.push(("Access-Control-Allow-Credentials"@, value@)),
    {
        self.with("Access-Control-Allow-Credentials", value)
    }

    /// The headers of this policy, in the order in which they were added.
    pub fn headers(&self) -> (r: &Vec<(String, String)>)
        ensures
            r.deep_view() == self@,
    {
        &self.headers
    }
}

impl Default for Cors {
    fn default() -> (r: Self)
        ensures
            r@ == Seq::<(Seq<char>, Seq<char>)>::empty(),
    {
        Cors::new()
    }
}

/// `s` with every `c` replaced by `with`.
pub open spec fn replace(s: Seq<char>, c: char, with: Seq<char>) -> Seq<char>
    decreases s.len(),
{
    if s.len() == 0 {
        Seq::empty()
    } else {
        replace(s.drop_last(), c, with) + (if s.last() == c {
            with
        } else {
            seq![s.last()]
        })
    }
}

/// The regular expression for a route's path: `/*` captures the whole request
/// path under the name `wildcard`; in any other path every `{name}` becomes a
/// group of that name that holds one or more characters other than `/`. The
/// expression is anchored at both ends.
pub open spec fn route_pattern(path: Seq<char>) -> Seq<char> {
    if path == "/*"@ {
        "^(?P<wildcard>.*)$"@
    } else {
        "^"@ + replace(replace(path, '{', "(?P<"@), '}', ">[^/]+)"@) + "$"@
    }
}

/// `s` with every `c` replaced by `with`.
fn replace_chars(s: &[char], c: char, with: &str) -> (r: Vec<char>)
    ensures
        r@ == replace(s@, c, with@),
{
    let mut r: Vec<char> = Vec::new();
    let mut i: usize = 0;
    assert(s@.take(0) =~= Seq::empty());
    while i < s.len()
        invariant
            i <= s@.len(),
            r@ == replace(s@.take(i as int), c, with@),
        decreases s@.len() - i,
    {
        let ghost before = r@;
        assert(s@.take(i + 1).drop_last() =~= s@.take(i as int));
        if s[i] == c {
            extend_str(&mut r, with);
        } else {
            r.push(s[i]);
            assert(r@ =~= before + seq![s@[i as int]]);
        }
        i += 1;
    }
    assert(s@.take(i as int) =~= s@);
    r
}

/// The regular expression for a route's path.
pub fn compile_pattern(path: &str) -> (r: String)
    ensures
        r@ == route_pattern(path@),
{
    if str_eq(path, "/*") {
        "^(?P<wildcard>.*)$".to_owned()
    } else {
        let chars = chars_of(path);
        let opened = replace_chars(chars.as_slice(), '{', "(?P<");
        let closed = replace_chars(opened.as_slice(), '}', ">[^/]+)");
        let mut out: Vec<char> = Vec::new();
        extend_str(&mut out, "^");
        extend_chars(&mut out, closed.as_slice());
        extend_str(&mut out, "$");
        assert(out@ =~= route_pattern(path@));
        string_of(out.as_slice())
    }
}

/// The part of a request target before its first `?`.
pub open spec fn request_path(target: Seq<char>) -> Seq<char> {
    match split_once(target, '?') {
        Some((path, _)) => path,
        None => target,
    }
}

/// The part of a request target after its first `?`, if it has one.
pub open spec fn request_query(target: Seq<char>) -> Option<Seq<char>> {
    match split_once(target, '?') {
        Some((_, query)) => Some(query),
        None => None,
    }
}

/// The entries that the first `upto` of `fields` give: a field with exactly
/// one `=` gives its two sides; any other field gives nothing.
pub open spec fn field_entries(fields: Seq<Seq<char>>, upto: int) -> Seq<(Seq<char>, Seq<char>)>
    decreases upto,
{
    if upto <= 0 {
        Seq::empty()
    } else {
        let sides = split(fields[upto - 1], '=');
        if sides.len() == 2 {
            field_entries(fields, upto - 1).push((sides[0], sides[1]))
        } else {
            field_entries(fields, upto - 1)
        }
    }
}

/// The entries of a query string, in order.
pub open spec fn query_entries(query: Seq<char>) -> Seq<(Seq<char>, Seq<char>)> {
    field_entries(split(query, '&'), split(query, '&').len() as int)
}

/// The entries that the first `upto` capture groups give: a group that has a
/// name and took part in the match gives its name and what it holds.
pub open spec fn capture_entries(
    names: Seq<Option<Seq<char>>>,
    groups: Seq<Option<Seq<char>>>,
    upto: int,
) -> Seq<(Seq<char>, Seq<char>)>
    decreases upto,
{
    if upto <= 0 {
        Seq::empty()
    } else {
        let before = capture_entries(names, groups, upto - 1);
        if upto <= names.len() && upto <= groups.len() {
            match (names[upto - 1], groups[upto - 1]) {
                (Some(name), Some(value)) => before.push((name, value)),
                _ => before,
            }
        } else {
            before
        }
    }
}

/// The parameters that a handler receives for `target` on a route with the
/// expression `pattern`, as entries in order of insertion: first those of the
/// named capture groups, then those of the query string.
pub open spec fn params_entries(pattern: Seq<char>, target: Seq<char>) -> Seq<
    (Seq<char>, Seq<char>),
> {
    let names = regex_group_names(pattern);
    let captured = match regex_captures(pattern, request_path(target)) {
        Some(groups) => capture_entries(names, groups, names.len() as int),
        None => Seq::empty(),
    };
    match request_query(target) {
        Some(query) => captured + query_entries(query),
        None => captured,
    }
}

/// A route without its handler.
pub struct RouteView {
    pub pattern: Seq<char>,
    pub method: HttpMethod,
    pub authorize: bool,
}

/// A router without its handlers.
pub struct RouterView {
    pub routes: Seq<RouteView>,
    pub cors: Option<Seq<(Seq<char>, Seq<char>)>>,
    pub credentials: Option<(Seq<char>, Seq<char>)>,
    pub logging: bool,
}

/// What a router decides before any handler runs.
pub enum Dispatch {
    /// Answer with this response.
    Respond(ResponseView),
    /// Fail with this error.
    Fail(ApiErrorView),
    /// Call the handler of the route with this index on these parameters.
    Invoke(int, Seq<(Seq<char>, Seq<char>)>),
}

/// Index of the first route from `from` on whose expression matches `path`.
pub open spec fn first_match(routes: Seq<RouteView>, path: Seq<char>, from: int) -> Option<int>
    decreases routes.len() - from,
{
    if from < 0 || from >= routes.len() {
        None
    } else if regex_captures(routes[from].pattern, path) is Some {
        Some(from)
    } else {
        first_match(routes, path, from + 1)
    }
}

impl RouterView {
    /// The headers of the CORS policy; none where there is no policy.
    pub open spec fn cors_headers(self) -> Seq<(Seq<char>, Seq<char>)> {
        match self.cors {
            Some(headers) => headers,
            None => Seq::empty(),
        }
    }

    /// The answer to a preflight request: 204, no body, the CORS headers and
    /// no others.
    pub open spec fn preflight(self) -> ResponseView {
        ResponseView {
            content_type: "application/json"@,
            body: None,
            status_code: 204,
            headers: self.cors_headers(),
        }
    }

    /// The answer to a request that no route matches.
    pub open spec fn not_found(self, target: Seq<char>) -> ResponseView {
        json_response(404, "No route found for path "@ + target).with_headers(self.cors_headers())
    }

    /// `error` as the router hands it on: with the CORS headers after its
    /// own, and with the request's method and path attached.
    pub open spec fn attach(self, error: ApiErrorView, target: Seq<char>, method: Seq<char>)
        -> ApiErrorView {
        ApiErrorView {
            error_response: error.error_response.with_headers(self.cors_headers()),
            method: Some(method),
            path: Some(request_path(target)),
        }
    }

    /// The error for a request whose method is not the one of the route that
    /// its path selects.
    pub open spec fn method_not_allowed(self, target: Seq<char>, method: Seq<char>)
        -> ApiErrorView {
        self.attach(ApiErrorView::json(405, "Method Not Allowed"@), target, method)
    }

    /// The challenge for a request that presents no acceptable credentials.
    pub open spec fn challenge(self, target: Seq<char>, method: Seq<char>) -> ApiErrorView {
        self.attach(
            ApiErrorView::bare(
                json_response(401, "Unauthorized"@).with_headers(
                    seq![("WWW-Authenticate"@, "Basic"@)],
                ),
            ),
            target,
            method,
        )
    }

    /// The error for a route that asks for authorization on a server without
    /// credentials.
    pub open spec fn unconfigured(self, target: Seq<char>, method: Seq<char>) -> ApiErrorView {
        self.attach(ApiErrorView::json(500, "No credentials configured"@), target, method)
    }

    /// Whether a request with these headers may enter a route that asks for
    /// authorization.
    pub open spec fn admits(self, headers: Map<Seq<char>, Seq<char>>) -> bool {
        self.credentials matches Some(expected) && headers.contains_key("Authorization"@)
            && grants(headers["Authorization"@], expected)
    }

    /// What the router decides for a request before any handler runs.
    ///
    /// A request with the method `OPTIONS` is a preflight, whatever its
    /// target. Otherwise the first route whose expression matches the path
    /// decides: its method must be the request's, and where it asks for
    /// authorization the request must present the server's credentials.
    pub open spec fn dispatch(
        self,
        target: Seq<char>,
        method: Seq<char>,
        headers: Map<Seq<char>, Seq<char>>,
    ) -> Dispatch {
        if method == "OPTIONS"@ {
            Dispatch::Respond(self.preflight())
        } else {
            match first_match(self.routes, request_path(target), 0) {
                None => Dispatch::Respond(self.not_found(target)),
                Some(index) => {
                    let route = self.routes[index];
                    if route.method.token() != method {
                        Dispatch::Fail(self.method_not_allowed(target, method))
                    } else if route.authorize && self.credentials is None {
                        Dispatch::Fail(self.unconfigured(target, method))
                    } else if route.authorize && !self.admits(headers) {
                        Dispatch::Fail(self.challenge(target, method))
                    } else {
                        Dispatch::Invoke(index, params_entries(route.pattern, target))
                    }
                },
            }
        }
    }

    /// What the router makes of a handler's result: a response gets the CORS
    /// headers after its own; an error gets them too, and the request's
    /// method and path.
    pub open spec fn finish(
        self,
        target: Seq<char>,
        method: Seq<char>,
        outcome: Result<ResponseView, ApiErrorView>,
    ) -> Result<ResponseView, ApiErrorView> {
        match outcome {
            Ok(response) => Ok(response.with_headers(self.cors_headers())),
            Err(error) => Err(self.attach(error, target, method)),
        }
    }

    /// The log line for a response, as a template's arguments: the time, the
    /// peer's address, the status code in its colour, the method and the
    /// path.
    pub open spec fn log_args(
        time: Seq<char>,
        peer: Seq<char>,
        status_code: u16,
        method: Seq<char>,
        path: Seq<char>,
    ) -> Seq<(Seq<char>, Option<Color>)> {
        seq![
            (time, Some(Color::White)),
            (peer, Some(Color::White)),
            (decimal(status_code as nat), Some(status_color(status_code))),
            (method, Some(Color::White)),
            (path, Some(Color::White)),
        ]
    }
}

/// The view of a handler's result.
pub open spec fn outcome_view(outcome: Result<HttpResponse, ApiError>) -> Result<
    ResponseView,
    ApiErrorView,
> {
    match outcome {
        Ok(response) => Ok(response@),
        Err(error) => Err(error@),
    }
}

/// A path pattern, the method it accepts, the handler to call, and whether
/// the request must be authorized.
pub struct Route<H> {
    pattern: String,
    handler: H,
    method: HttpMethod,
    authorize: bool,
}

impl<H> View for Route<H> {
    type V = RouteView;

    closed spec fn view(&self) -> RouteView {
        RouteView { pattern: self.pattern@, method: self.method, authorize: self.authorize }
    }
}

/// The routes in order of registration, with what applies to all of them.
pub struct Router<H> {
    routes: Vec<Route<H>>,
    logger: Option<Logger>,
    cors: Option<Cors>,
    credentials: Option<Credentials>,
}

/// What a router decides before any handler runs.
pub enum Resolution {
    /// Answer with this response.
    Respond(HttpResponse),
    /// Fail with this error.
    Fail(ApiError),
    /// Call the handler of the route with this index on these parameters.
    Invoke(usize, TextMap),
}

impl Resolution {
    /// Whether this decision is the one that `dispatch` describes.
    pub open spec fn is(self, dispatch: Dispatch) -> bool {
        match dispatch {
            Dispatch::Respond(response) => self matches Resolution::Respond(r) && r@ == response,
            Dispatch::Fail(error) => self matches Resolution::Fail(e) && e@ == error,
            Dispatch::Invoke(index, entries) => self matches Resolution::Invoke(i, params) && i
                == index && params.entries() == entries,
        }
    }
}

impl<H> View for Router<H> {
    type V = RouterView;

    closed spec fn view(&self) -> RouterView {
        RouterView {
            routes: Seq::new(self.routes@.len(), |i: int| self.routes@[i]@),
            cors: match self.cors {
                Some(cors) => Some(cors@),
                None => None,
            },
            credentials: match self.credentials {
                Some(credentials) => Some(credentials@),
                None => None,
            },
            logging: self.logger is Some,
        }
    }
}

impl<H> Router<H> {
    /// The handlers of the routes, in order of registration.
    pub closed spec fn handlers(self) -> Seq<H> {
        Seq::new(self.routes@.len(), |i: int| self.routes@[i].handler)
    }

    /// There is one handler for each route.
    pub proof fn lemma_handlers(self)
        ensures
            self.handlers().len() == self@.routes.len(),
    {
    }

    /// A router without routes, logger, CORS policy or credentials.
    pub fn new() -> (r: Self)
        ensures
            r@ == (RouterView {
                routes: Seq::empty(),
                cors: None,
                credentials: None,
                logging: false,
            }),
            r.handlers() == Seq::<H>::empty(),
    {
        let r = Router { routes: Vec::new(), logger: None, cors: None, credentials: None };
        assert(r@.routes =~= Seq::empty());
        assert(r.handlers() =~= Seq::empty());
        r
    }

    /// This router with the given logger, or without one.
    pub fn with_logger(self, logger: Option<Logger>) -> (r: Self)
        ensures
            r@ == (RouterView { logging: logger is Some, ..self@ }),
            r.handlers() == self.handlers(),
    {
        let mut r = self;
        r.logger = logger;
        r
    }

    /// This router with the given CORS policy.
    pub fn with_cors(self, cors: Cors) -> (r: Self)
        ensures
            r@ == (RouterView { cors: Some(cors@), ..self@ }),
            r.handlers() == self.handlers(),
    {
        let mut r = self;
        r.cors = Some(cors);
        r
    }

    /// This router with the given credentials.
    pub fn with_credentials(self, credentials: Credentials) -> (r: Self)
        ensures
            r@ == (RouterView { credentials: Some(credentials@), ..self@ }),
            r.handlers() == self.handlers(),
    {
        let mut r = self;
        r.credentials = Some(credentials);
        r
    }

    /// The handler of the route with index `index`.
    pub fn handler_at(&self, index: usize) -> (r: &H)
        requires
            index < self@.routes.len(),
        ensures
            *r == self.handlers()[index as int],
    {
        &self.routes[index].handler
    }

    /// The number of routes.
    pub fn route_count(&self) -> (r: usize)
        ensures
            r == self@.routes.len(),
            r == self.handlers().len(),
    {
        self.routes.len()
    }

    /// Whether this router has a CORS policy.
    pub fn hsa_cors(&self) -> (r: bool)
        ensures
            r == (self@.cors is Some),
    {
        self.cors.is_some()
    }

    /// Appends a route for `path`.
    ///
    /// The path must give a regular expression that `regex` accepts;
    /// `try_add_route` is for paths of which this is not known.
    pub fn add_route(&mut self, path: &str, method: HttpMethod, handler: H, authorize: bool)
        requires
            regex_compiles(route_pattern(path@)),
        ensures
            final(self)@ == (RouterView {
                routes: old(self)@.routes.push(
                    RouteView { pattern: route_pattern(path@), method, authorize },
                ),
                ..old(self)@
            }),
            final(self).handlers() == old(self).handlers().push(handler),
    {
        let ghost before = self@.routes;
        let ghost handlers = self.handlers();
        let route = Route { pattern: compile_pattern(path), handler, method, authorize };
        self.routes.push(route);
        assert(self@.routes =~= before.push(
            RouteView { pattern: route_pattern(path@), method, authorize },
        ));
        assert(self.handlers() =~= handlers.push(handler));
    }

    /// Appends a route for `path` if the path gives a regular expression that
    /// `regex` accepts; otherwise hands the handler back and changes nothing.
    pub fn try_add_route(&mut self, path: &str, method: HttpMethod, handler: H, authorize: bool)
        -> (r: Result<(), H>)
        ensures
            regex_compiles(route_pattern(path@)) ==> r is Ok && final(self)@ == (RouterView {
                routes: old(self)@.routes.push(
                    RouteView { pattern: route_pattern(path@), method, authorize },
                ),
                ..old(self)@
            }) && final(self).handlers() == old(self).handlers().push(handler),
            !regex_compiles(route_pattern(path@)) ==> r == Err::<(), H>(handler) && *final(self)
                == *old(self),
    {
        let pattern = compile_pattern(path);
        if compiles(pattern.as_str()) {
            self.add_route(path, method, handler, authorize);
            Ok(())
        } else {
            Err(handler)
        }
    }

    /// The CORS headers to add to a response.
    fn cors_headers(&self) -> (r: Vec<(String, String)>)
        ensures
            r.deep_view() == self@.cors_headers(),
    {
        let mut r: Vec<(String, String)> = Vec::new();
        assert(r.deep_view() =~= Seq::empty());
        match &self.cors {
            Some(cors) => {
                let mut i: usize = 0;
                assert(cors@.take(0) =~= Seq::empty());
                while i < cors.headers.len()
                    invariant
                        i <= cors.headers@.len(),
                        r.deep_view() == cors@.take(i as int),
                    decreases cors.headers@.len() - i,
                {
                    let ghost before = r.deep_view();
                    let pair = &cors.headers[i];
                    r.push((pair.0.clone(), pair.1.clone()));
                    assert(r.deep_view() =~= before.push((pair.0@, pair.1@)));
                    assert(cors@.take(i + 1) =~= cors@.take(i as int).push(cors@[i as int]));
                    i += 1;
                }
                assert(cors@.take(i as int) =~= cors@);
            },
            None => {},
        }
        r
    }

    /// `error` with the CORS headers and the request attached.
    fn attach(&self, error: ApiError, target: &str, method: &str) -> (r: ApiError)
        ensures
            r@ == self@.attach(error@, target@, method@),
    {
        let ApiError { error_response, method: _, path: _ } = error;
        let extra = self.cors_headers();
        let chars = chars_of(target);
        let path = match split_once_chars(chars.as_slice(), '?') {
            Some((path, _)) => path,
            None => chars,
        };
        ApiError {
            error_response: error_response.add_response_headers(&extra),
            method: Some(method.to_owned()),
            path: Some(string_of(path.as_slice())),
        }
    }

    /// What the router makes of a handler's result.
    pub fn finish(&self, target: &str, method: &str, outcome: Result<HttpResponse, ApiError>) -> (r:
        Result<HttpResponse, ApiError>)
        ensures
            outcome_view(r) == self@.finish(target@, method@, outcome_view(outcome)),
    {
        match outcome {
            Ok(response) => {
                let extra = self.cors_headers();
                Ok(response.add_response_headers(&extra))
            },
            Err(error) => Err(self.attach(error, target, method)),
        }
    }

    /// What the router decides for a request before any handler runs.
    pub fn resolve(&self, target: &str, method: &str, headers: &TextMap) -> (r: Resolution)
        ensures
            r.is(self@.dispatch(target@, method@, headers@)),
            r matches Resolution::Invoke(index, _) ==> index < self@.routes.len(),
    {
        if str_eq(method, "OPTIONS") {
            let extra = self.cors_headers();
            return Resolution::Respond(HttpResponse::new(None, None, 204).add_response_headers(&extra));
        }
        let chars = chars_of(target);
        let (path_chars, query) = match split_once_chars(chars.as_slice(), '?') {
            Some((path, query)) => (path, Some(query)),
            None => (chars, None),
        };
        let path = string_of(path_chars.as_slice());
        assert(path@ == request_path(target@));
        let ghost routes = self@.routes;
        let mut i: usize = 0;
        while i < self.routes.len()
            invariant
                i <= self.routes@.len(),
                routes == self@.routes,
                path@ == request_path(target@),
                method@ != "OPTIONS"@,
                match query {
                    Some(q) => request_query(target@) == Some(q@),
                    None => request_query(target@) is None,
                },
                first_match(routes, path@, 0) == first_match(routes, path@, i as int),
            decreases self.routes@.len() - i,
        {
            let route = &self.routes[i];
            assert(routes[i as int] == route@);
            match captures(route.pattern.as_str(), path.as_str()) {
                Some(groups) => {
                    if !str_eq(route.method.as_str(), method) {
                        let error = ApiError::new_with_json(405, "Method Not Allowed".to_owned());
                        return Resolution::Fail(self.attach(error, target, method));
                    }
                    if route.authorize {
                        match &self.credentials {
                            None => {
                                let error = ApiError::new_with_json(
                                    500,
                                    "No credentials configured".to_owned(),
                                );
                                return Resolution::Fail(self.attach(error, target, method));
                            },
                            Some(credentials) => {
                                let admitted = match headers.get("Authorization") {
                                    Some(value) => authorized(value.as_str(), credentials),
                                    None => false,
                                };
                                if !admitted {
                                    return Resolution::Fail(self.challenge(target, method));
                                }
                            },
                        }
                    }
                    let names = group_names(route.pattern.as_str());
                    let mut params = captured_params(&names, &groups);
                    match query {
                        Some(query) => {
                            push_query(&mut params, query.as_slice());
                        },
                        None => {
                            assert(params.entries() + Seq::empty() =~= params.entries());
                        },
                    }
                    return Resolution::Invoke(i, params);
                },
                None => {},
            }
            i += 1;
        }
        let mut message: Vec<char> = Vec::new();
        extend_str(&mut message, "No route found for path ");
        extend_str(&mut message, target);
        assert(message@ =~= "No route found for path "@ + target@);
        let ApiError { error_response, method: _, path: _ } = ApiError::new_with_json(
            404,
            string_of(message.as_slice()),
        );
        let extra = self.cors_headers();
        Resolution::Respond(error_response.add_response_headers(&extra))
    }

    /// The challenge for a request that presents no acceptable credentials.
    fn challenge(&self, target: &str, method: &str) -> (r: ApiError)
        ensures
            r@ == self@.challenge(target@, method@),
    {
        let ApiError { error_response, method: _, path: _ } = ApiError::new_with_json(
            401,
            "Unauthorized".to_owned(),
        );
        let error = ApiError {
            error_response: error_response.add_response_header("WWW-Authenticate", "Basic"),
            method: None,
            path: None,
        };
        self.attach(error, target, method)
    }

    /// The log line for a response, for the standard output stream; `None`
    /// where this router has no logger.
    pub fn log_response(
        &self,
        status_code: u16,
        path: &str,
        method: &str,
        peer_addr: &str,
        time: &str,
    ) -> (r: Option<LogLine>)
        ensures
            r is Some <==> self@.logging,
            r matches Some(line) ==> line.stream == Stream::Stdout && crate::logger::line(
                "{} - {} - {} - {} {}"@,
                RouterView::log_args(time@, peer_addr@, status_code, method@, path@),
            ) == Ok::<Styled, crate::logger::LogFault>(line.text()),
    {
        match &self.logger {
            Some(logger) => {
                let mut args: Vec<(String, Option<Color>)> = Vec::new();
                args.push((time.to_owned(), Some(Color::White)));
                args.push((peer_addr.to_owned(), Some(Color::White)));
                let code = decimal_chars(status_code as u64);
                args.push((string_of(code.as_slice()), Some(get_status_code_color(status_code))));
                args.push((method.to_owned(), Some(Color::White)));
                args.push((path.to_owned(), Some(Color::White)));
                assert(args.deep_view() =~= RouterView::log_args(
                    time@,
                    peer_addr@,
                    status_code,
                    method@,
                    path@,
                ));
                proof {
                    lemma_log_template(args.deep_view());
                }
                match logger.log_stdout("{} - {} - {} - {} {}", args) {
                    Ok(line) => Some(line),
                    Err(_) => None,
                }
            },
            None => None,
        }
    }
}

/// The status code under which an outcome is answered.
pub open spec fn outcome_status(outcome: Result<ResponseView, ApiErrorView>) -> u16 {
    match outcome {
        Ok(response) => response.status_code,
        Err(error) => error.error_response.status_code,
    }
}

impl<H> Router<H> {
    /// The log line for the outcome of a request, for the standard output
    /// stream: the time, the peer's address, the status code under which the
    /// outcome is answered, the method, and the target without its query.
    /// `None` where this router has no logger.
    pub fn log_outcome(
        &self,
        outcome: &Result<HttpResponse, ApiError>,
        target: &str,
        method: &str,
        peer_addr: &str,
        time: &str,
    ) -> (r: Option<LogLine>)
        ensures
            r is Some <==> self@.logging,
            r matches Some(line) ==> line.stream == Stream::Stdout && crate::logger::line(
                "{} - {} - {} - {} {}"@,
                RouterView::log_args(
                    time@,
                    peer_addr@,
                    outcome_status(outcome_view(*outcome)),
                    method@,
                    request_path(target@),
                ),
            ) == Ok::<Styled, crate::logger::LogFault>(line.text()),
    {
        let status_code = match outcome {
            Ok(response) => response.status_code,
            Err(error) => error.error_response.status_code,
        };
        let chars = chars_of(target);
        let path = match split_once_chars(chars.as_slice(), '?') {
            Some((path, _)) => path,
            None => chars,
        };
        let path = string_of(path.as_slice());
        self.log_response(status_code, path.as_str(), method, peer_addr, time)
    }
}

impl<H: Fn(Option<&str>, TextMap) -> Result<HttpResponse, ApiError>> Router<H> {
    /// Answers a request.
    ///
    /// What is decided before any handler runs is `dispatch`. Where that is a
    /// call, the handler of the selected route receives the body and the
    /// parameters, and what it returns goes through `finish`.
    pub fn route(&self, target: &str, method: &str, data: Option<&str>, headers: &TextMap) -> (r:
        Result<HttpResponse, ApiError>)
        requires
            forall|i: int, params: TextMap|
                0 <= i < self.handlers().len() ==> #[trigger] call_requires(
                    self.handlers()[i],
                    (data, params),
                ),
        ensures
            match self@.dispatch(target@, method@, headers@) {
                Dispatch::Respond(response) => r matches Ok(x) && x@ == response,
                Dispatch::Fail(error) => r matches Err(e) && e@ == error,
                Dispatch::Invoke(index, entries) => exists|
                    params: TextMap,
                    outcome: Result<HttpResponse, ApiError>,
                |
                    params.entries() == entries && call_ensures(
                        self.handlers()[index],
                        (data, params),
                        outcome,
                    ) && outcome_view(r) == self@.finish(target@, method@, outcome_view(outcome)),
            },
    {
        match self.resolve(target, method, headers) {
            Resolution::Respond(response) => Ok(response),
            Resolution::Fail(error) => Err(error),
            Resolution::Invoke(index, params) => {
                assert(self.handlers()[index as int] == self.routes@[index as int].handler);
                let outcome = (self.routes[index].handler)(data, params);
                self.finish(target, method, outcome)
            },
        }
    }
}

/// The template of the response log line fills with any five arguments: it
/// holds five placeholders and no other brace.
proof fn lemma_log_template(args: Seq<(Seq<char>, Option<Color>)>)
    requires
        args.len() == 5,
    ensures
        crate::logger::line("{} - {} - {} - {} {}"@, args) is Ok,
{
    reveal_strlit("{} - {} - {} - {} {}");
    let t = "{} - {} - {} - {} {}"@;
    assert(t.len() == 20);
    assert(plain(t, 2, 5) && plain(t, 7, 10) && plain(t, 12, 15) && plain(t, 17, 18)) by {
        reveal_with_fuel(plain, 5);
    }
    assert(plain(t, 0, 0));
    assert(t.skip(0) =~= t);
    lemma_fill_step(t, args, 0, 0, 0);
    lemma_fill_step(t, args, 1, 2, 5);
    lemma_fill_step(t, args, 2, 7, 10);
    lemma_fill_step(t, args, 3, 12, 15);
    lemma_fill_step(t, args, 4, 17, 18);
    assert(t.skip(20).len() == 0);
    assert(crate::logger::fill(t.skip(20), args, 5) is Ok);
}

/// The parameters that capture groups give: `names` holds the names of the
/// groups and `groups` what they hold, both by group index.
pub fn captured_params(names: &Vec<Option<String>>, groups: &Vec<Option<String>>) -> (r: TextMap)
    ensures
        r.entries() == capture_entries(
            names.deep_view(),
            groups.deep_view(),
            names.deep_view().len() as int,
        ),
{
    let mut r = TextMap::new();
    let mut i: usize = 0;
    while i < names.len()
        invariant
            i <= names@.len(),
            r.entries() == capture_entries(names.deep_view(), groups.deep_view(), i as int),
        decreases names@.len() - i,
    {
        if i < groups.len() {
            match (&names[i], &groups[i]) {
                (Some(name), Some(value)) => {
                    assert(names.deep_view()[i as int] == Some(name@));
                    assert(groups.deep_view()[i as int] == Some(value@));
                    r.insert(name.clone(), value.clone());
                },
                _ => {
                    assert(names.deep_view()[i as int] is None || groups.deep_view()[i as int]
                        is None);
                },
            }
        }
        i += 1;
    }
    r
}

/// Inserts the entries of a query string.
pub fn push_query(params: &mut TextMap, query: &[char])
    ensures
        final(params).entries() == old(params).entries() + query_entries(query@),
{
    let fields = split_chars(query, '&');
    let ghost all = texts(fields@);
    let mut i: usize = 0;
    assert(params.entries() + Seq::empty() =~= params.entries());
    while i < fields.len()
        invariant
            i <= fields@.len(),
            all == texts(fields@),
            all == split(query@, '&'),
            params.entries() == old(params).entries() + field_entries(all, i as int),
        decreases fields@.len() - i,
    {
        let sides = split_chars(fields[i].as_slice(), '=');
        assert(all[i as int] == fields@[i as int]@);
        if sides.len() == 2 {
            assert(texts(sides@)[0] == sides@[0]@);
            assert(texts(sides@)[1] == sides@[1]@);
            params.insert(string_of(sides[0].as_slice()), string_of(sides[1].as_slice()));
            assert(params.entries() =~= old(params).entries() + field_entries(all, i + 1));
        }
        i += 1;
    }
}

impl<H> Default for Router<H> {
    fn default() -> (r: Self)
        ensures
            r@ == (RouterView {
                routes: Seq::empty(),
                cors: None,
                credentials: None,
                logging: false,
            }),
            r.handlers() == Seq::<H>::empty(),
    {
        Router::new()
    }
}

} // verus!
