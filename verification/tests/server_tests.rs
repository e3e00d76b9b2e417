use scratch_server::api::{download_request, index_page, static_asset};
use scratch_server::auth::parse_credentials;
use scratch_server::errors::api_error::ApiError;
use scratch_server::errors::http_parse_error::HttpParseError;
use scratch_server::http_response::{Body, HttpResponse};
use scratch_server::banner::BANNER;
use scratch_server::router::{Cors, HttpMethod, Router};
use scratch_server::server::{
    body_mode, build_server, reject, settle, BodyMode, HttpServer, Settings,
    DEFAULT_ADDRESS, DEFAULT_PORT, DEFAULT_THREADS,
};
use scratch_server::static_files::StaticFiles;
use scratch_server::text_map::TextMap;

type Handler = Box<dyn Fn(Option<&str>, TextMap) -> Result<HttpResponse, ApiError>>;

static INDEX: &[u8] = b"<!doctype html><title>index</title>";
static SCRIPT: &[u8] = b"console.log('hi');";

fn bundle() -> StaticFiles {
    StaticFiles::empty().with_file("script.js", SCRIPT).with_file("index.html", INDEX)
}

fn settings() -> Settings {
    Settings {
        port: DEFAULT_PORT,
        threads: DEFAULT_THREADS,
        cert: None,
        certpass: None,
        silent: true,
        cors: false,
        ip: DEFAULT_ADDRESS.to_string(),
        auth: None,
        compression: false,
        index: None,
    }
}

fn routes(authorize: bool) -> impl FnOnce(Router<Handler>) -> Router<Handler> {
    move |mut router| {
        router.add_route(
            "/static/{file}?",
            HttpMethod::GET,
            Box::new(|_, params| static_asset(&bundle(), &params)),
            authorize,
        );
        router.add_route(
            "/api/files",
            HttpMethod::GET,
            Box::new(|_, params| {
                let download = download_request(&params)?;
                if download.path == "present.txt" {
                    Ok(scratch_server::api::download_response(download, 12))
                } else {
                    Err(ApiError::from_io(true, "No such file or directory (os error 2)"))
                }
            }),
            authorize,
        );
        router.add_route(
            "/echo",
            HttpMethod::POST,
            Box::new(|body, _| {
                Ok(HttpResponse::new(
                    body.map(|b| Body::Text(b.to_string())),
                    Some("text/plain".to_string()),
                    200,
                ))
            }),
            authorize,
        );
        router.add_route(
            "/*",
            HttpMethod::GET,
            Box::new(|_, _| index_page(&bundle())),
            authorize,
        );
        router
    }
}

fn server(configure: impl FnOnce(&mut Settings)) -> HttpServer<Handler> {
    let mut s = settings();
    configure(&mut s);
    let (server, authorize, _) = build_server::<Handler>(s);
    server.add_routes(routes(authorize))
}

fn body_text(response: &HttpResponse) -> &str {
    match &response.body {
        Some(Body::Text(t)) => t,
        Some(Body::Json(t)) => t,
        other => panic!("unexpected body {:?}", other),
    }
}

fn cors_pairs() -> Vec<(String, String)> {
    vec![
        ("Access-Control-Allow-Origin".to_string(), "*".to_string()),
        ("Access-Control-Allow-Methods".to_string(), "GET, POST, PUT, DELETE".to_string()),
        ("Access-Control-Allow-Headers".to_string(), "Content-Type, Authorization".to_string()),
        ("Access-Control-Allow-Credentials".to_string(), "true".to_string()),
    ]
}

#[test]
fn defaults() {
    assert_eq!(DEFAULT_PORT, 7878);
    assert_eq!(DEFAULT_THREADS, 12);
    assert_eq!(DEFAULT_ADDRESS, "0.0.0.0");
}

#[test]
fn build_keeps_the_configuration() {
    let server: HttpServer<Handler> = HttpServer::build(
        8443,
        4,
        Some("identity.pfx".to_string()),
        Some("pw".to_string()),
        "127.0.0.1".to_string(),
        true,
    );
    assert_eq!(server.port(), 8443);
    assert_eq!(server.worker_count(), Ok(4));
    assert_eq!(server.cert_path().as_deref(), Some("identity.pfx"));
    assert_eq!(server.cert_pass().as_deref(), Some("pw"));
    assert_eq!(server.bind_address(), "127.0.0.1");
    assert!(server.compression());
    assert!(server.logger().is_none());
    assert!(!server.get_router().hsa_cors());
    assert!(server.server_info().is_none());
}

#[test]
fn a_pool_needs_at_least_one_worker() {
    let server: HttpServer<Handler> =
        HttpServer::build(1, 0, None, None, "0.0.0.0".to_string(), false);
    assert_eq!(
        server.worker_count(),
        Err("The number of threads must be greater than zero".to_string())
    );
    let server: HttpServer<Handler> =
        HttpServer::build(1, 1, None, None, "0.0.0.0".to_string(), false);
    assert_eq!(server.worker_count(), Ok(1));
}

#[test]
fn settings_are_applied() {
    let (server, authorize, index) = build_server::<Handler>(Settings {
        port: 9000,
        threads: 3,
        cert: Some("identity.pfx".to_string()),
        certpass: Some(String::new()),
        silent: false,
        cors: true,
        ip: "::1".to_string(),
        auth: Some(parse_credentials("u:p").unwrap()),
        compression: true,
        index: Some("site/index.html".to_string()),
    });
    assert!(authorize);
    assert_eq!(index.as_deref(), Some("site/index.html"));
    assert_eq!(server.port(), 9000);
    assert_eq!(server.bind_address(), "::1");
    assert!(server.compression());
    assert!(server.logger().is_some());
    assert!(server.get_router().hsa_cors());
    let (server, authorize, index) = build_server::<Handler>(settings());
    assert!(!authorize);
    assert!(index.is_none());
    assert!(server.logger().is_none());
    assert!(!server.get_router().hsa_cors());
}

#[test]
fn banner_shows_the_configuration() {
    let server = server(|s| {
        s.silent = false;
        s.cors = true;
        s.port = 8080;
        s.threads = 2;
    });
    let line = server.server_info().unwrap();
    let plain: String = line.runs.iter().map(|(t, _)| t.as_str()).collect();
    let expected = BANNER
        .replacen("{}", "8080", 1)
        .replacen("{}", "2", 1)
        .replacen("{}", "Disabled", 1)
        .replacen("{}", "Enabled", 1)
        + "\n";
    assert_eq!(plain, expected);
    assert!(plain.ends_with("Port: 8080\nThreads: 2\nHTTPS: Disabled\nCORS: Enabled\n\n====================\nLogs:\n"));
    assert!(plain.contains(" | (___  _ _ __ ___  _ __ | | ___  | |__| |"));
    assert!(line.runs.contains(&("8080".to_string(), Some(scratch_server::logger::Color::Yellow))));
}

#[test]
fn body_mode_follows_the_content_type() {
    let mut headers = TextMap::new();
    assert_eq!(body_mode(&headers), BodyMode::Plain);
    headers.insert("Content-Type".to_string(), "application/json".to_string());
    assert_eq!(body_mode(&headers), BodyMode::Plain);
    headers.insert("Content-Type".to_string(), "multipart/form-data; boundary=x".to_string());
    assert_eq!(body_mode(&headers), BodyMode::Upload);
}

#[test]
fn static_index_is_served() {
    let response = server(|_| {}).respond("GET /static/index.html HTTP/1.1\r\n\r\n", b"");
    assert_eq!(response.status_code, 200);
    assert_eq!(response.content_type, "text/html");
    assert_eq!(
        response.headers,
        vec![("Cache-Control".to_string(), "public, max-age=31536000".to_string())]
    );
    assert!(matches!(response.body, Some(Body::StaticFile(bytes, _)) if bytes == INDEX));
}

#[test]
fn unknown_paths_fall_through_to_the_index() {
    let response = server(|_| {}).respond("GET /nonsense HTTP/1.1\r\n\r\n", b"");
    assert_eq!(response.status_code, 200);
    assert_eq!(response.content_type, "text/html");
    assert!(matches!(response.body, Some(Body::StaticFile(bytes, _)) if bytes == INDEX));
}

#[test]
fn preflight_with_cors_enabled() {
    let response = server(|s| s.cors = true)
        .respond("OPTIONS /api/files HTTP/1.1\r\nOrigin: x\r\n\r\n", b"");
    assert_eq!(response.status_code, 204);
    assert!(response.body.is_none());
    assert_eq!(response.headers, cors_pairs());
    let wire = response.write_response(false).unwrap();
    assert!(wire.payload.is_empty());
    assert!(wire.head.contains("\r\nAccess-Control-Allow-Origin: *\r\n"));
    assert!(wire.head.contains("\r\nAccess-Control-Allow-Methods: GET, POST, PUT, DELETE\r\n"));
    assert!(wire.head.contains("\r\nAccess-Control-Allow-Headers: Content-Type, Authorization\r\n"));
    assert!(wire.head.contains("\r\nAccess-Control-Allow-Credentials: true\r\n"));
    assert!(!wire.head.contains("Content-Length"));
}

#[test]
fn download_without_path_is_500() {
    let response = server(|_| {}).respond("GET /api/files HTTP/1.1\r\n\r\n", b"");
    assert_eq!(response.status_code, 500);
    assert_eq!(body_text(&response), "{\"message\":\"Missing path parameter\"}");
}

#[test]
fn download_of_a_missing_file_is_404() {
    let response =
        server(|_| {}).respond("GET /api/files?path=/does/not/exist HTTP/1.1\r\n\r\n", b"");
    assert_eq!(response.status_code, 404);
    assert_eq!(response.content_type, "text/html");
    assert!(body_text(&response).contains("404 Not Found"));
}

#[test]
fn guarded_download_without_authorization_is_challenged() {
    let guarded = server(|s| s.auth = Some(parse_credentials("u:p").unwrap()));
    let response = guarded.respond("GET /api/files?path=secret HTTP/1.1\r\n\r\n", b"");
    assert_eq!(response.status_code, 401);
    assert!(response.headers.contains(&("WWW-Authenticate".to_string(), "Basic".to_string())));
    let response = guarded.respond(
        "GET /static/script.js HTTP/1.1\r\nAuthorization: Basic dTpw\r\n\r\n",
        b"",
    );
    assert_eq!(response.status_code, 200);
    assert!(matches!(response.body, Some(Body::StaticFile(bytes, _)) if bytes == SCRIPT));
}

#[test]
fn malformed_request_is_400() {
    let response = server(|_| {}).respond("GET\r\n\r\n", b"");
    assert_eq!(response.status_code, 400);
    assert_eq!(
        body_text(&response),
        "{\"message\":\"Error parsing HTTP request: An error occurred while parsing the HTTP request\"}"
    );
    let rejected = reject(HttpParseError::new("connection reset".to_string()));
    assert_eq!(rejected.status_code, 400);
    assert_eq!(
        body_text(&rejected),
        "{\"message\":\"Error parsing HTTP request: connection reset\"}"
    );
}

#[test]
fn body_reaches_the_handler() {
    let s = server(|_| {});
    let response = s.respond("POST /echo HTTP/1.1\r\nContent-Length: 4\r\n\r\n", b"ping-pong");
    assert_eq!(body_text(&response), "ping");
    let response = s.respond("POST /echo HTTP/1.1\r\n\r\n", b"ping-pong");
    assert!(response.body.is_none());
    let response = s.respond("POST /echo HTTP/1.1\r\nContent-Length: x\r\n\r\n", b"");
    assert_eq!(response.status_code, 500);
    assert_eq!(body_text(&response), "{\"message\":\"invalid digit found in string\"}");
}

#[test]
fn wrong_method_is_405_through_the_server() {
    let response = server(|_| {}).respond("POST /static/index.html HTTP/1.1\r\n\r\n", b"");
    assert_eq!(response.status_code, 405);
    let response = server(|_| {}).respond("GET /echo HTTP/1.1\r\n\r\n", b"");
    assert_eq!(response.status_code, 405);
}

#[test]
fn settle_unwraps_errors() {
    let response = settle(Err(ApiError::new_with_json(409, "conflict".to_string())));
    assert_eq!(response.status_code, 409);
    let response = settle(Ok(HttpResponse::new(None, None, 202)));
    assert_eq!(response.status_code, 202);
}

#[test]
fn routers_can_be_replaced() {
    let mut router: Router<Handler> = Router::new().with_cors(Cors::new().with_origins("*"));
    router.add_route("/x", HttpMethod::GET, Box::new(|_, _| Ok(HttpResponse::new(None, None, 200))), false);
    let server: HttpServer<Handler> =
        HttpServer::build(1, 1, None, None, "0.0.0.0".to_string(), false).with_router(router);
    assert!(server.get_router().hsa_cors());
    assert_eq!(server.respond("GET /x HTTP/1.1\r\n\r\n", b"").status_code, 200);
    let with_policy = server.with_cors_policy(Cors::new());
    assert!(with_policy.get_router().hsa_cors());
    let logging = with_policy.with_logger();
    assert!(logging.logger().is_some());
    assert!(logging.get_router().log_response(200, "/x", "GET", "::1", "t").is_some());
}
