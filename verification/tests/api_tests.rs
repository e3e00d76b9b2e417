use scratch_server::api::{
    breadcrumbs, create_routes, custom_index_page, decode_path, download_request,
    download_response, file_name, index_page, parse_index_path, static_asset, within_root,
    Endpoint,
};
use scratch_server::http_response::Body;
use scratch_server::listing::{list_directory, listing_json, Files};
use scratch_server::router::{Resolution, Router};
use scratch_server::static_files::{StaticFiles, INDEX_HTML, SCRIPT_JS};
use scratch_server::text_map::TextMap;

static INDEX: &[u8] = b"<!doctype html><title>index</title>";
static SCRIPT: &[u8] = b"console.log('hi');";

fn bundle() -> StaticFiles {
    StaticFiles::empty().with_file("script.js", SCRIPT).with_file("index.html", INDEX)
}

fn params(pairs: &[(&str, &str)]) -> TextMap {
    let mut map = TextMap::new();
    for (key, value) in pairs {
        map.insert(key.to_string(), value.to_string());
    }
    map
}

fn json_text(body: &Option<Body>) -> &str {
    match body {
        Some(Body::Json(text)) => text,
        Some(Body::Text(text)) => text,
        other => panic!("unexpected body {:?}", other),
    }
}

#[test]
fn static_files_lookup() {
    let files = bundle();
    assert_eq!(files.get("index.html").unwrap(), INDEX);
    assert_eq!(files.get("script.js").unwrap(), SCRIPT);
    assert_eq!(files.get("missing.css").unwrap_err(), "File not found");
    assert_eq!(StaticFiles::empty().get("index.html").unwrap_err(), "File not found");
    assert_eq!(StaticFiles::default().get("").unwrap_err(), "File not found");
    let replaced = bundle().with_file("index.html", SCRIPT);
    assert_eq!(replaced.get("index.html").unwrap(), SCRIPT);
}

#[test]
fn asset_is_served_with_its_media_type_and_cache_header() {
    let response = static_asset(&bundle(), &params(&[("file", "script.js")])).unwrap();
    assert_eq!(response.status_code, 200);
    assert_eq!(response.content_type, "text/javascript");
    assert_eq!(
        response.headers,
        vec![("Cache-Control".to_string(), "public, max-age=31536000".to_string())]
    );
    match response.body {
        Some(Body::StaticFile(bytes, name)) => {
            assert_eq!(bytes, SCRIPT);
            assert_eq!(name, "script.js");
        }
        other => panic!("unexpected body {:?}", other),
    }
}

#[test]
fn asset_defaults_to_index_html() {
    let response = static_asset(&bundle(), &TextMap::new()).unwrap();
    assert_eq!(response.content_type, "text/html");
    assert!(matches!(response.body, Some(Body::StaticFile(bytes, _)) if bytes == INDEX));
}

#[test]
fn unknown_extension_is_text_plain() {
    static DATA: &[u8] = b"data";
    let files = StaticFiles::empty().with_file("data.zzzunknown", DATA).with_file("README", DATA);
    let response = static_asset(&files, &params(&[("file", "data.zzzunknown")])).unwrap();
    assert_eq!(response.content_type, "text/plain");
    let response = static_asset(&files, &params(&[("file", "README")])).unwrap();
    assert_eq!(response.content_type, "text/plain");
}

#[test]
fn missing_asset_is_404() {
    let error = static_asset(&bundle(), &params(&[("file", "nope.js")])).unwrap_err();
    assert_eq!(error.error_response.status_code, 404);
    assert!(json_text(&error.error_response.body).contains("<p>File not found</p>"));
    assert_eq!(index_page(&StaticFiles::empty()).unwrap_err().error_response.status_code, 404);
}

#[test]
fn index_page_is_html() {
    let response = index_page(&bundle()).unwrap();
    assert_eq!(response.status_code, 200);
    assert_eq!(response.content_type, "text/html");
    assert!(response.headers.is_empty());
    assert!(matches!(response.body, Some(Body::StaticFile(bytes, name)) if bytes == INDEX && name == "index.html"));
    let custom = custom_index_page("<p>mine</p>".to_string());
    assert_eq!(custom.content_type, "text/html");
    assert!(matches!(custom.body, Some(Body::Text(text)) if text == "<p>mine</p>"));
}

#[test]
fn file_names() {
    assert_eq!(file_name("/does/not/exist").as_deref(), Some("exist"));
    assert_eq!(file_name("a.txt").as_deref(), Some("a.txt"));
    assert_eq!(file_name("dir/sub/").as_deref(), Some("sub"));
    assert_eq!(file_name("dir/sub/.").as_deref(), Some("sub"));
    assert_eq!(file_name("dir/.."), None);
    assert_eq!(file_name("/"), None);
    assert_eq!(file_name(""), None);
    assert_eq!(file_name("."), None);
    for path in ["/does/not/exist", "a.txt", "dir/sub/", "dir/sub/.", "dir/..", "/", "", ".", "a//b"] {
        let expected = std::path::Path::new(path).file_name().map(|n| n.to_string_lossy().to_string());
        assert_eq!(file_name(path), expected, "{:?}", path);
    }
}

#[test]
fn download_needs_a_path() {
    let error = download_request(&TextMap::new()).unwrap_err();
    assert_eq!(error.error_response.status_code, 500);
    assert_eq!(error.error_response.content_type, "application/json");
    assert_eq!(json_text(&error.error_response.body), "{\"message\":\"Missing path parameter\"}");
    let error = download_request(&params(&[("path", "..")])).unwrap_err();
    assert_eq!(json_text(&error.error_response.body), "{\"message\":\"No file name\"}");
}

#[test]
fn download_is_an_attachment() {
    let request = download_request(&params(&[("path", "docs/report.pdf")])).unwrap();
    assert_eq!(request.path, "docs/report.pdf");
    assert_eq!(request.file_name, "report.pdf");
    assert_eq!(request.content_type, "application/pdf");
    let response = download_response(request, 2048);
    assert_eq!(response.status_code, 200);
    assert_eq!(response.content_type, "application/pdf");
    match &response.body {
        Some(Body::Attachment(file, name)) => {
            assert_eq!(file.path, "docs/report.pdf");
            assert_eq!(file.size, 2048);
            assert_eq!(name, "report.pdf");
        }
        other => panic!("unexpected body {:?}", other),
    }
    let wire = response.write_response(true).unwrap();
    assert!(wire.head.ends_with(
        "Content-Length: 2048\r\nContent-Disposition: attachment; filename=\"report.pdf\"\r\n\r\n"
    ));
}

#[test]
fn download_of_unknown_type_is_octet_stream() {
    let request = download_request(&params(&[("path", "secret")])).unwrap();
    assert_eq!(request.content_type, "application/octet-stream");
}

#[test]
fn index_path_must_exist() {
    assert_eq!(parse_index_path("site/index.html", true).unwrap(), "site/index.html");
    assert_eq!(parse_index_path("site/index.html", false).unwrap_err(), "Index file not found");
}

#[test]
fn percent_decoding() {
    assert_eq!(decode_path("a%20b/c%2Fd"), "a b/c/d");
    assert_eq!(decode_path("plain"), "plain");
    assert_eq!(decode_path("100%"), "100%");
    assert_eq!(decode_path("%C3%A9%FF"), "é\u{fffd}");
}

#[test]
fn breadcrumbs_accumulate_the_way() {
    let parts: Vec<(String, String)> =
        breadcrumbs("a/b").into_iter().map(|p| (p.part_name, p.full_path)).collect();
    assert_eq!(
        parts,
        vec![
            (".".to_string(), "./".to_string()),
            ("a".to_string(), "./a/".to_string()),
            ("b".to_string(), "./a/b/".to_string()),
        ]
    );
    let parts: Vec<(String, String)> =
        breadcrumbs("").into_iter().map(|p| (p.part_name, p.full_path)).collect();
    assert_eq!(parts, vec![(".".to_string(), "./".to_string())]);
    let names: Vec<String> = breadcrumbs("./a//b/../c/.").into_iter().map(|p| p.part_name).collect();
    assert_eq!(names, vec![".", "a", "b", "..", "c"]);
    let parts: Vec<(String, String)> =
        breadcrumbs("/x").into_iter().map(|p| (p.part_name, p.full_path)).collect();
    assert_eq!(
        parts,
        vec![("/".to_string(), "//".to_string()), ("x".to_string(), "//x/".to_string())]
    );
}

#[test]
fn breadcrumbs_follow_path_components() {
    for path in ["a/b", "", "./a//b/../c/.", "/x", "a/", "../up"] {
        let joined = std::path::PathBuf::from("./").join(path);
        let expected: Vec<String> =
            joined.components().map(|c| c.as_os_str().to_string_lossy().to_string()).collect();
        let names: Vec<String> = breadcrumbs(path).into_iter().map(|p| p.part_name).collect();
        assert_eq!(names, expected, "{:?}", path);
    }
}

#[test]
fn root_containment() {
    assert!(within_root("/srv/root", "/srv/root"));
    assert!(within_root("/srv/root", "/srv/root/a/b"));
    assert!(within_root("/", "/anything"));
    assert!(!within_root("/srv/root", "/srv"));
    assert!(!within_root("/srv/root", "/srv/rootless"));
    assert!(!within_root("/srv/root", "/etc"));
    for (root, target) in [("/srv/root", "/srv/root/a"), ("/srv/root", "/srv/rootless"), ("/a", "/")] {
        assert_eq!(
            within_root(root, target),
            std::path::Path::new(target).starts_with(root)
        );
    }
}

fn entry(name: &str, is_directory: bool) -> Files {
    Files {
        path: format!("docs/{}", name),
        name: name.to_string(),
        is_directory,
        last_modified: "02/01/2024 03:04:05".to_string(),
        size: "1.5 KB".to_string(),
    }
}

#[test]
fn listing_is_the_json_that_serde_would_write() {
    let files = vec![entry("a \"quoted\".txt", false), entry("sub", true)];
    let text = listing_json("docs", &files);
    let mut file_values = Vec::new();
    for file in &files {
        let mut object = serde_json::Map::new();
        object.insert("path".to_string(), serde_json::Value::String(file.path.clone()));
        object.insert("name".to_string(), serde_json::Value::String(file.name.clone()));
        let kind = if file.is_directory { "Directory" } else { "File" };
        object.insert("file_type".to_string(), serde_json::Value::String(kind.to_string()));
        object.insert(
            "last_modified".to_string(),
            serde_json::Value::String(file.last_modified.clone()),
        );
        object.insert("size".to_string(), serde_json::Value::String(file.size.clone()));
        file_values.push(serde_json::Value::Object(object));
    }
    let mut path_values = Vec::new();
    for (part_name, full_path) in [(".", "./"), ("docs", "./docs/")] {
        let mut object = serde_json::Map::new();
        object.insert("part_name".to_string(), serde_json::Value::String(part_name.to_string()));
        object.insert("full_path".to_string(), serde_json::Value::String(full_path.to_string()));
        path_values.push(serde_json::Value::Object(object));
    }
    let mut document = serde_json::Map::new();
    document.insert("paths".to_string(), serde_json::Value::Array(path_values));
    document.insert("files".to_string(), serde_json::Value::Array(file_values));
    assert_eq!(text, serde_json::Value::Object(document).to_string());
}

#[test]
fn empty_listing() {
    assert_eq!(
        listing_json("", &Vec::new()),
        "{\"files\":[],\"paths\":[{\"full_path\":\"./\",\"part_name\":\".\"}]}"
    );
}

#[test]
fn listing_outside_the_root_is_400() {
    let error = list_directory("..", "/srv/root", "/srv", &Vec::new()).unwrap_err();
    assert_eq!(error.error_response.status_code, 400);
    assert_eq!(
        json_text(&error.error_response.body),
        "{\"message\":\"Only paths relative to the current directory are allowed\"}"
    );
}

#[test]
fn listing_decodes_its_path() {
    let response = list_directory("my%20docs", "/srv/root", "/srv/root/my docs", &Vec::new()).unwrap();
    assert_eq!(response.status_code, 200);
    assert_eq!(response.content_type, "application/json");
    assert_eq!(
        json_text(&response.body),
        "{\"files\":[],\"paths\":[{\"full_path\":\"./\",\"part_name\":\".\"},\
         {\"full_path\":\"./my docs/\",\"part_name\":\"my docs\"}]}"
    );
}

#[test]
fn default_route_table() {
    let router = create_routes(Router::new(), true, None).unwrap();
    let none = TextMap::new();
    let cases = [
        ("/static/index.html", 0, Some(("file", "index.html"))),
        ("/static/", 0, None),
        ("/api/files?path=x", 1, Some(("path", "x"))),
        ("/api/directory?path=.", 2, Some(("path", "."))),
        ("/nonsense", 3, Some(("wildcard", "/nonsense"))),
        ("/", 3, Some(("wildcard", "/"))),
        ("/static/a/b", 3, None),
    ];
    for (target, expected, param) in cases {
        match router.resolve(target, "GET", &none) {
            Resolution::Fail(error) => {
                assert_eq!(error.error_response.status_code, 500, "{}", target)
            }
            _ => panic!("guarded routes without credentials must fail: {}", target),
        }
        let open = create_routes(Router::new(), false, None).unwrap();
        match open.resolve(target, "GET", &none) {
            Resolution::Invoke(index, params) => {
                assert_eq!(index, expected, "{}", target);
                if let Some((key, value)) = param {
                    assert_eq!(params.get(key).unwrap(), value);
                }
            }
            _ => panic!("expected a call for {}", target),
        }
    }
}

#[test]
fn custom_index_replaces_the_default_routes() {
    let router = create_routes(Router::new(), false, Some("site/index.html".to_string())).unwrap();
    assert!(matches!(router.resolve("/", "GET", &TextMap::new()), Resolution::Invoke(0, _)));
    assert!(matches!(router.resolve("/static/x", "GET", &TextMap::new()), Resolution::Respond(_)));
    let _ = Endpoint::Index;
}

#[test]
fn asset_is_served_as_the_given_type() {
    let response = scratch_server::api::serve_asset(
        "a.bin".to_string(),
        SCRIPT,
        "application/x-test".to_string(),
    );
    assert_eq!(response.status_code, 200);
    assert_eq!(response.content_type, "application/x-test");
    assert_eq!(
        response.headers,
        vec![("Cache-Control".to_string(), "public, max-age=31536000".to_string())]
    );
}

#[test]
fn listing_objects() {
    let file: String = scratch_server::listing::file_object_chars("1", "2", "3", "4", "5")
        .into_iter()
        .collect();
    assert_eq!(file, "{\"file_type\":1,\"last_modified\":2,\"name\":3,\"path\":4,\"size\":5}");
    let part: String =
        scratch_server::listing::part_object_chars("\"./\"", "\".\"").into_iter().collect();
    assert_eq!(part, "{\"full_path\":\"./\",\"part_name\":\".\"}");
}

#[test]
fn built_in_bundle_holds_the_page_and_its_script() {
    let files = StaticFiles::new();
    assert_eq!(files.get("index.html").unwrap(), INDEX_HTML.as_bytes());
    assert_eq!(files.get("script.js").unwrap(), SCRIPT_JS.as_bytes());
    for name in ["", "index.htm", "Index.html", "script", "style.css", "/index.html"] {
        assert_eq!(files.get(name).unwrap_err(), "File not found", "{:?}", name);
    }
    let again = StaticFiles::new();
    assert_eq!(again.get("index.html").unwrap(), files.get("index.html").unwrap());
    assert_eq!(again.get("script.js").unwrap(), files.get("script.js").unwrap());
    let default = StaticFiles::default();
    assert_eq!(default.get("index.html").unwrap(), INDEX_HTML.as_bytes());
    assert!(INDEX_HTML.starts_with("<!DOCTYPE html>"));
    assert!(INDEX_HTML.contains("<script src=\"/static/script.js\"></script>"));
    assert!(SCRIPT_JS.contains("/api/directory?path="));
}

#[test]
fn empty_bundle_holds_nothing() {
    assert_eq!(StaticFiles::empty().get("index.html").unwrap_err(), "File not found");
    assert_eq!(StaticFiles::empty().get("script.js").unwrap_err(), "File not found");
}

#[test]
fn modification_dates_are_day_month_year_and_time() {
    let text = |seconds| scratch_server::dates::last_modified(seconds);
    assert_eq!(text(0).as_deref(), Some("01/01/1970 00:00:00"));
    assert_eq!(text(1704164645).as_deref(), Some("02/01/2024 03:04:05"));
    assert_eq!(text(-1).as_deref(), Some("31/12/1969 23:59:59"));
    assert_eq!(text(951782400).as_deref(), Some("29/02/2000 00:00:00"));
    assert_eq!(text(i64::MAX), None);
    assert_eq!(text(i64::MIN), None);
    assert_eq!(scratch_server::dates::MODIFIED_FORMAT, "%d/%m/%Y %T");
}
