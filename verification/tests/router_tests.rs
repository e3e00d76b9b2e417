use base64::Engine;
use scratch_server::auth::parse_credentials;
use scratch_server::errors::api_error::ApiError;
use scratch_server::http_response::{Body, HttpResponse};
use scratch_server::logger::{Color, Logger};
use scratch_server::router::{compile_pattern, Cors, HttpMethod, Resolution, Router};
use scratch_server::text_map::TextMap;

type Handler = Box<dyn Fn(Option<&str>, TextMap) -> Result<HttpResponse, ApiError>>;

fn text(message: &str) -> HttpResponse {
    HttpResponse::new(Some(Body::Text(message.to_string())), Some("text/plain".to_string()), 200)
}

fn fixed(message: &'static str) -> Handler {
    Box::new(move |_, _| Ok(text(message)))
}

fn echo_params(keys: &'static [&'static str]) -> Handler {
    Box::new(move |body, params| {
        let mut out = String::new();
        for key in keys {
            let value = params.get(key).map(|v| v.as_str()).unwrap_or("-");
            out.push_str(&format!("{}={};", key, value));
        }
        out.push_str(&format!("body={}", body.unwrap_or("-")));
        Ok(text(&out))
    })
}

fn body_text(response: &HttpResponse) -> &str {
    match &response.body {
        Some(Body::Text(t)) => t,
        Some(Body::Json(t)) => t,
        other => panic!("unexpected body {:?}", other),
    }
}

fn headers(pairs: &[(&str, &str)]) -> TextMap {
    let mut map = TextMap::new();
    for (key, value) in pairs {
        map.insert(key.to_string(), value.to_string());
    }
    map
}

fn cors() -> Cors {
    Cors::new()
        .with_origins("*")
        .with_methods("GET, POST, PUT, DELETE")
        .with_headers("Content-Type, Authorization")
        .with_credentials("true")
}

fn cors_pairs() -> Vec<(String, String)> {
    vec![
        ("Access-Control-Allow-Origin".to_string(), "*".to_string()),
        ("Access-Control-Allow-Methods".to_string(), "GET, POST, PUT, DELETE".to_string()),
        ("Access-Control-Allow-Headers".to_string(), "Content-Type, Authorization".to_string()),
        ("Access-Control-Allow-Credentials".to_string(), "true".to_string()),
    ]
}

#[test]
fn method_tokens() {
    let table = [
        (HttpMethod::GET, "GET"),
        (HttpMethod::POST, "POST"),
        (HttpMethod::PUT, "PUT"),
        (HttpMethod::DELETE, "DELETE"),
        (HttpMethod::PATCH, "PATCH"),
        (HttpMethod::OPTIONS, "OPTIONS"),
        (HttpMethod::HEAD, "HEAD"),
        (HttpMethod::TRACE, "TRACE"),
        (HttpMethod::CONNECT, "CONNECT"),
    ];
    for (method, token) in table {
        assert_eq!(method.as_str(), token);
    }
}

#[test]
fn cors_builder_keeps_order() {
    assert_eq!(cors().headers(), &cors_pairs());
    assert!(Cors::new().headers().is_empty());
    assert!(Cors::default().headers().is_empty());
    let reordered = Cors::new().with_credentials("false").with_origins("https://a.example");
    assert_eq!(
        reordered.headers(),
        &vec![
            ("Access-Control-Allow-Credentials".to_string(), "false".to_string()),
            ("Access-Control-Allow-Origin".to_string(), "https://a.example".to_string()),
        ]
    );
}

#[test]
fn patterns_are_compiled_as_described() {
    assert_eq!(compile_pattern("/*"), "^(?P<wildcard>.*)$");
    assert_eq!(compile_pattern("/api/files"), "^/api/files$");
    assert_eq!(compile_pattern("/static/{file}?"), "^/static/(?P<file>[^/]+)?$");
    assert_eq!(
        compile_pattern("/users/{id}/posts/{post}"),
        "^/users/(?P<id>[^/]+)/posts/(?P<post>[^/]+)$"
    );
    assert_eq!(compile_pattern(""), "^$");
    assert_eq!(compile_pattern("/*/x"), "^/*/x$");
}

#[test]
fn invalid_patterns_are_handed_back() {
    let mut router: Router<Handler> = Router::new();
    assert!(router.try_add_route("/a(", HttpMethod::GET, fixed("x"), false).is_err());
    assert!(router.try_add_route("/a", HttpMethod::GET, fixed("a"), false).is_ok());
    let response = router.route("/a(", "GET", None, &TextMap::new()).unwrap();
    assert_eq!(response.status_code, 404);
    assert_eq!(body_text(&router.route("/a", "GET", None, &TextMap::new()).unwrap()), "a");
}

#[test]
fn first_matching_route_wins() {
    let mut router: Router<Handler> = Router::new();
    router.add_route("/a/{x}", HttpMethod::GET, fixed("first"), false);
    router.add_route("/a/b", HttpMethod::GET, fixed("second"), false);
    router.add_route("/*", HttpMethod::GET, fixed("rest"), false);
    let none = TextMap::new();
    assert_eq!(body_text(&router.route("/a/b", "GET", None, &none).unwrap()), "first");
    assert_eq!(body_text(&router.route("/a/b/c", "GET", None, &none).unwrap()), "rest");
    assert_eq!(body_text(&router.route("/", "GET", None, &none).unwrap()), "rest");
}

#[test]
fn path_parameters_and_query_reach_the_handler() {
    let mut router: Router<Handler> = Router::new();
    router.add_route("/users/{id}/posts/{post}", HttpMethod::POST, echo_params(&["id", "post", "q", "r"]), false);
    let response = router
        .route("/users/42/posts/7?q=x&r=y%20z&broken&a=b=c", "POST", Some("payload"), &TextMap::new())
        .unwrap();
    assert_eq!(body_text(&response), "id=42;post=7;q=x;r=y%20z;body=payload");
}

#[test]
fn query_overwrites_path_parameters() {
    let mut router: Router<Handler> = Router::new();
    router.add_route("/items/{id}", HttpMethod::GET, echo_params(&["id"]), false);
    let none = TextMap::new();
    assert_eq!(body_text(&router.route("/items/1?id=2", "GET", None, &none).unwrap()), "id=2;body=-");
    assert_eq!(body_text(&router.route("/items/1?id=2&id=3", "GET", None, &none).unwrap()), "id=3;body=-");
    assert_eq!(body_text(&router.route("/items/1?", "GET", None, &none).unwrap()), "id=1;body=-");
}

#[test]
fn query_is_stripped_at_the_first_question_mark() {
    let mut router: Router<Handler> = Router::new();
    router.add_route("/q", HttpMethod::GET, echo_params(&["a", "b?c"]), false);
    let response = router.route("/q?a=1?2&b?c=3", "GET", None, &TextMap::new()).unwrap();
    assert_eq!(body_text(&response), "a=1?2;b?c=3;body=-");
}

#[test]
fn wildcard_captures_the_whole_path() {
    let mut router: Router<Handler> = Router::new();
    router.add_route("/*", HttpMethod::GET, echo_params(&["wildcard"]), false);
    let response = router.route("/any/thing?x=1", "GET", None, &TextMap::new()).unwrap();
    assert_eq!(body_text(&response), "wildcard=/any/thing;body=-");
}

#[test]
fn optional_group_that_takes_no_part_gives_no_parameter() {
    let mut router: Router<Handler> = Router::new();
    router.add_route("/static/{file}?", HttpMethod::GET, echo_params(&["file"]), false);
    let none = TextMap::new();
    assert_eq!(body_text(&router.route("/static/", "GET", None, &none).unwrap()), "file=-;body=-");
    assert_eq!(body_text(&router.route("/static/a.js", "GET", None, &none).unwrap()), "file=a.js;body=-");
    assert_eq!(router.route("/static/a/b", "GET", None, &none).unwrap().status_code, 404);
}

#[test]
fn wrong_method_is_405() {
    let mut router: Router<Handler> = Router::new();
    router.add_route("/a", HttpMethod::GET, fixed("get"), false);
    router.add_route("/a", HttpMethod::POST, fixed("post"), false);
    let error = router.route("/a?x=1", "POST", None, &TextMap::new()).unwrap_err();
    assert_eq!(error.error_response.status_code, 405);
    assert_eq!(body_text(&error.error_response), "{\"message\":\"Method Not Allowed\"}");
    assert_eq!(error.method.as_deref(), Some("POST"));
    assert_eq!(error.path.as_deref(), Some("/a"));
    for method in ["PUT", "DELETE", "get", "", "HEAD"] {
        let error = router.route("/a", method, None, &TextMap::new()).unwrap_err();
        assert_eq!(error.error_response.status_code, 405);
    }
}

#[test]
fn unmatched_path_is_404_with_the_target_in_the_message() {
    let mut router: Router<Handler> = Router::new();
    router.add_route("/a", HttpMethod::GET, fixed("a"), false);
    let response = router.route("/missing?x=\"1\"", "GET", None, &TextMap::new()).unwrap();
    assert_eq!(response.status_code, 404);
    assert_eq!(response.content_type, "application/json");
    assert_eq!(
        body_text(&response),
        "{\"message\":\"No route found for path /missing?x=\\\"1\\\"\"}"
    );
    let empty: Router<Handler> = Router::new();
    assert_eq!(empty.route("/", "GET", None, &TextMap::new()).unwrap().status_code, 404);
}

#[test]
fn options_is_a_preflight_whatever_the_target() {
    let mut router: Router<Handler> = Router::new();
    router.add_route("/api/files", HttpMethod::GET, fixed("files"), true);
    let router = router.with_cors(cors());
    for target in ["/api/files", "/nowhere", "", "/api/files?path=x"] {
        let response = router.route(target, "OPTIONS", Some("ignored"), &TextMap::new()).unwrap();
        assert_eq!(response.status_code, 204);
        assert!(response.body.is_none());
        assert_eq!(response.headers, cors_pairs());
    }
}

#[test]
fn preflight_without_policy_has_no_headers() {
    let router: Router<Handler> = Router::new();
    assert!(!router.hsa_cors());
    let response = router.route("/", "OPTIONS", None, &TextMap::new()).unwrap();
    assert_eq!(response.status_code, 204);
    assert!(response.headers.is_empty());
}

#[test]
fn cors_headers_follow_the_handlers_own() {
    let mut router: Router<Handler> = Router::new();
    router.add_route(
        "/a",
        HttpMethod::GET,
        Box::new(|_, _| Ok(text("a").add_response_header("X-Own", "1"))),
        false,
    );
    router.add_route(
        "/fail",
        HttpMethod::GET,
        Box::new(|_, _| Err(ApiError::new_with_json(418, "teapot".to_string()))),
        false,
    );
    let router = router.with_cors(cors());
    assert!(router.hsa_cors());
    let response = router.route("/a", "GET", None, &TextMap::new()).unwrap();
    let mut expected = vec![("X-Own".to_string(), "1".to_string())];
    expected.extend(cors_pairs());
    assert_eq!(response.headers, expected);
    let error = router.route("/fail?x=1", "GET", None, &TextMap::new()).unwrap_err();
    assert_eq!(error.error_response.status_code, 418);
    assert_eq!(error.error_response.headers, cors_pairs());
    assert_eq!(error.method.as_deref(), Some("GET"));
    assert_eq!(error.path.as_deref(), Some("/fail"));
    let missing = router.route("/missing", "GET", None, &TextMap::new()).unwrap();
    assert_eq!(missing.headers, cors_pairs());
}

fn guarded() -> Router<Handler> {
    let mut router: Router<Handler> = Router::new();
    router.add_route("/secret", HttpMethod::GET, fixed("entered"), true);
    router.add_route("/open", HttpMethod::GET, fixed("open"), false);
    router
}

fn basic(user_and_password: &str) -> String {
    format!("Basic {}", base64::prelude::BASE64_STANDARD.encode(user_and_password))
}

#[test]
fn matching_credentials_enter_the_route() {
    let router = guarded().with_credentials(parse_credentials("u:p").unwrap());
    let response = router
        .route("/secret", "GET", None, &headers(&[("Authorization", &basic("u:p"))]))
        .unwrap();
    assert_eq!(body_text(&response), "entered");
    assert_eq!(basic("u:p"), "Basic dTpw");
    let spaced = headers(&[("Authorization", "  Basic \t dTpw  ")]);
    assert_eq!(body_text(&router.route("/secret", "GET", None, &spaced).unwrap()), "entered");
}

#[test]
fn password_may_hold_colons() {
    let router = guarded().with_credentials(
        scratch_server::auth::Credentials::new("user".to_string(), "pa:ss:word".to_string()).unwrap(),
    );
    let ok = headers(&[("Authorization", &basic("user:pa:ss:word"))]);
    assert!(router.route("/secret", "GET", None, &ok).is_ok());
}

#[test]
fn anything_else_is_challenged() {
    let router = guarded().with_credentials(parse_credentials("u:p").unwrap());
    let wrong = [
        basic("u:q"),
        basic("v:p"),
        basic("u:p "),
        basic("up"),
        basic(""),
        basic(":"),
        "Basic".to_string(),
        "Basic dTpw extra".to_string(),
        "basic dTpw".to_string(),
        "Bearer dTpw".to_string(),
        "Basic dTpw=".to_string(),
        "Basic !!!!".to_string(),
        format!("Basic {}", base64::prelude::BASE64_STANDARD.encode([b'u', b':', 0xff])),
        "dTpw".to_string(),
        String::new(),
    ];
    for value in wrong {
        let error = router
            .route("/secret?x=1", "GET", None, &headers(&[("Authorization", &value)]))
            .unwrap_err();
        assert_eq!(error.error_response.status_code, 401, "{:?}", value);
        assert_eq!(
            error.error_response.headers,
            vec![("WWW-Authenticate".to_string(), "Basic".to_string())]
        );
        assert_eq!(error.path.as_deref(), Some("/secret"));
    }
}

#[test]
fn missing_authorization_header_is_challenged() {
    let router = guarded().with_credentials(parse_credentials("u:p").unwrap());
    let error = router.route("/secret", "GET", None, &TextMap::new()).unwrap_err();
    assert_eq!(error.error_response.status_code, 401);
    assert!(error
        .error_response
        .headers
        .contains(&("WWW-Authenticate".to_string(), "Basic".to_string())));
    let lower = headers(&[("authorization", &basic("u:p"))]);
    assert_eq!(router.route("/secret", "GET", None, &lower).unwrap_err().error_response.status_code, 401);
}

#[test]
fn challenge_carries_cors_headers_after_its_own() {
    let router = guarded().with_credentials(parse_credentials("u:p").unwrap()).with_cors(cors());
    let error = router.route("/secret", "GET", None, &TextMap::new()).unwrap_err();
    let mut expected = vec![("WWW-Authenticate".to_string(), "Basic".to_string())];
    expected.extend(cors_pairs());
    assert_eq!(error.error_response.headers, expected);
}

#[test]
fn guarded_route_without_credentials_is_500() {
    let router = guarded();
    let error = router
        .route("/secret", "GET", None, &headers(&[("Authorization", &basic("u:p"))]))
        .unwrap_err();
    assert_eq!(error.error_response.status_code, 500);
    assert_eq!(body_text(&router.route("/open", "GET", None, &TextMap::new()).unwrap()), "open");
}

#[test]
fn method_is_checked_before_authorization() {
    let router = guarded().with_credentials(parse_credentials("u:p").unwrap());
    let error = router.route("/secret", "POST", None, &TextMap::new()).unwrap_err();
    assert_eq!(error.error_response.status_code, 405);
}

#[test]
fn open_routes_ignore_credentials() {
    let router = guarded().with_credentials(parse_credentials("u:p").unwrap());
    assert_eq!(body_text(&router.route("/open", "GET", None, &TextMap::new()).unwrap()), "open");
}

#[test]
fn resolve_says_which_handler_to_call() {
    let mut router: Router<u8> = Router::new();
    router.add_route("/a", HttpMethod::GET, 10, false);
    router.add_route("/b/{id}", HttpMethod::GET, 20, false);
    match router.resolve("/b/9?x=y", "GET", &TextMap::new()) {
        Resolution::Invoke(index, params) => {
            assert_eq!(index, 1);
            assert_eq!(params.get("id").unwrap(), "9");
            assert_eq!(params.get("x").unwrap(), "y");
        }
        _ => panic!("expected a call"),
    }
    assert!(matches!(router.resolve("/c", "GET", &TextMap::new()), Resolution::Respond(_)));
    assert!(matches!(router.resolve("/a", "PUT", &TextMap::new()), Resolution::Fail(_)));
    let finished = router.finish("/a?q", "GET", Err(ApiError::new(500, "x".to_string()))).unwrap_err();
    assert_eq!(finished.path.as_deref(), Some("/a"));
    assert_eq!(finished.method.as_deref(), Some("GET"));
}

#[test]
fn response_log_line() {
    let router: Router<Handler> = Router::new();
    assert!(router.log_response(200, "/", "GET", "127.0.0.1", "now").is_none());
    let router = router.with_logger(Some(Logger::new()));
    let line = router
        .log_response(404, "/missing", "GET", "10.0.0.7", "2024-01-02 03:04:05")
        .unwrap();
    let plain: String = line.runs.iter().map(|(t, _)| t.as_str()).collect();
    assert_eq!(plain, "2024-01-02 03:04:05 - 10.0.0.7 - 404 - GET /missing\n");
    assert!(line.runs.contains(&("404".to_string(), Some(Color::Red))));
    assert!(line.runs.contains(&("10.0.0.7".to_string(), Some(Color::White))));
    let silent = router.with_logger(None);
    assert!(silent.log_response(200, "/", "GET", "127.0.0.1", "now").is_none());
}

#[test]
fn parameters_from_capture_groups() {
    let names = vec![None, Some("a".to_string()), None, Some("b".to_string()), Some("c".to_string())];
    let groups = vec![
        Some("/whole".to_string()),
        Some("1".to_string()),
        Some("unnamed".to_string()),
        None,
        Some("3".to_string()),
    ];
    let mut params = scratch_server::router::captured_params(&names, &groups);
    assert_eq!(params.get("a").unwrap(), "1");
    assert!(params.get("b").is_none());
    assert_eq!(params.get("c").unwrap(), "3");
    let query: Vec<char> = "c=4&d=5&e&f=1=2&=x".chars().collect();
    scratch_server::router::push_query(&mut params, &query);
    assert_eq!(params.get("c").unwrap(), "4");
    assert_eq!(params.get("d").unwrap(), "5");
    assert!(params.get("e").is_none());
    assert!(params.get("f").is_none());
    assert_eq!(params.get("").unwrap(), "x");
    let short = scratch_server::router::captured_params(&names, &groups[..2].to_vec());
    assert_eq!(short.get("a").unwrap(), "1");
    assert!(short.get("c").is_none());
}

#[test]
fn outcome_log_line() {
    let router: Router<Handler> = Router::new().with_logger(Some(Logger::new()));
    let outcome = router.route("/missing?x=1", "GET", None, &TextMap::new());
    let line = router.log_outcome(&outcome, "/missing?x=1", "GET", "::1", "now").unwrap();
    let plain: String = line.runs.iter().map(|(t, _)| t.as_str()).collect();
    assert_eq!(plain, "now - ::1 - 404 - GET /missing\n");
    let failed: Result<HttpResponse, ApiError> = Err(ApiError::new(500, "x".to_string()));
    let line = router.log_outcome(&failed, "/a", "POST", "::1", "now").unwrap();
    assert!(line.runs.contains(&("500".to_string(), Some(Color::Magenta))));
    let silent: Router<Handler> = Router::new();
    assert!(silent.log_outcome(&failed, "/a", "POST", "::1", "now").is_none());
}

#[test]
fn the_header_made_for_the_credentials_enters_the_route() {
    let made = parse_credentials("user:secret").unwrap().authorization();
    let router = guarded().with_credentials(parse_credentials("user:secret").unwrap());
    let response = router
        .route("/secret", "GET", None, &headers(&[("Authorization", &made)]))
        .unwrap();
    assert_eq!(body_text(&response), "entered");
}
