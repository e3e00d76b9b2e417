use scratch_server::http_response::Body;
use scratch_server::multipart::{is_multipart, PartStep, Upload, UploadFault};
use scratch_server::paths::upload_path;
use scratch_server::text_map::TextMap;

const CONTENT_TYPE: &str = "multipart/form-data; boundary=----WebKitFormBoundary7MA4YWxk";
const BOUNDARY: &str = "------WebKitFormBoundary7MA4YWxk";

fn headers(pairs: &[(&str, &str)]) -> TextMap {
    let mut map = TextMap::new();
    for (key, value) in pairs {
        map.insert(key.to_string(), value.to_string());
    }
    map
}

fn part_lines(filename: &str) -> Vec<String> {
    vec![
        format!("{}\r\n", BOUNDARY),
        format!("Content-Disposition: form-data; name=\"file\"; filename=\"{}\"\r\n", filename),
        "Content-Type: text/plain\r\n".to_string(),
        "\r\n".to_string(),
    ]
}

fn read_part(filename: &str) -> (Upload, usize) {
    let mut upload = Upload::begin(CONTENT_TYPE).unwrap();
    let mut size = 0;
    let lines = part_lines(filename);
    for (i, line) in lines.iter().enumerate() {
        size += line.len();
        let step = upload.accept_line(line).unwrap();
        let expected = if i + 1 == lines.len() { PartStep::Done } else { PartStep::More };
        assert_eq!(step, expected);
    }
    (upload, size)
}

#[test]
fn multipart_is_recognised_by_its_prefix() {
    assert!(is_multipart(CONTENT_TYPE));
    assert!(is_multipart("multipart/form-data"));
    assert!(!is_multipart("text/plain; multipart/form-data"));
    assert!(!is_multipart("Multipart/form-data; boundary=x"));
    assert!(!is_multipart(""));
}

#[test]
fn boundary_is_required() {
    assert!(matches!(Upload::begin("multipart/form-data"), Err(UploadFault::MissingBoundary)));
    assert!(Upload::begin("multipart/form-data; boundary=").is_ok());
}

#[test]
fn file_size_follows_the_formula() {
    let (upload, header_bytes) = read_part("notes.txt");
    let file = b"the content of the file";
    let content_length = BOUNDARY.len() + header_bytes + file.len() + 6;
    let request = headers(&[
        ("Content-Type", CONTENT_TYPE),
        ("Content-Length", &content_length.to_string()),
        ("Path", "uploads"),
    ]);
    let plan = upload.plan(&request, "/srv/root").unwrap();
    assert_eq!(plan.file_bytes, file.len());
    assert_eq!(plan.file_bytes, content_length - BOUNDARY.len() - header_bytes - 6);
    assert_eq!(plan.filename, "notes.txt");
    assert_eq!(plan.target, "/srv/root/uploads/notes.txt");
    let response = plan.response();
    assert_eq!(response.status_code, 200);
    assert_eq!(response.content_type, "text/plain");
    match response.body {
        Some(Body::Text(text)) => assert_eq!(text, "File notes.txt uploaded successfully."),
        other => panic!("unexpected body {:?}", other),
    }
}

#[test]
fn empty_file_is_accepted() {
    let (upload, header_bytes) = read_part("empty");
    let content_length = BOUNDARY.len() + header_bytes + 6;
    let request = headers(&[("Content-Length", &content_length.to_string()), ("Path", "")]);
    let plan = upload.plan(&request, "/srv").unwrap();
    assert_eq!(plan.file_bytes, 0);
    assert_eq!(plan.target, "/srv/empty");
}

#[test]
fn content_shorter_than_the_framing_is_refused() {
    let (upload, header_bytes) = read_part("a");
    let content_length = BOUNDARY.len() + header_bytes + 5;
    let request = headers(&[("Content-Length", &content_length.to_string()), ("Path", ".")]);
    assert!(matches!(upload.plan(&request, "/srv"), Err(UploadFault::ShortContent)));
    let request = headers(&[("Content-Length", "0"), ("Path", ".")]);
    assert!(matches!(upload.plan(&request, "/srv"), Err(UploadFault::ShortContent)));
}

#[test]
fn traversal_out_of_the_root_is_refused() {
    let (upload, _) = read_part("passwd");
    for path in ["..", "../..", "a/../../b", "/etc", "/", "../root2"] {
        let request = headers(&[("Content-Length", "100000"), ("Path", path)]);
        assert!(
            matches!(upload.plan(&request, "/srv/root"), Err(UploadFault::OutsideRoot)),
            "{:?}",
            path
        );
    }
    let (upload, _) = read_part("../../etc/passwd");
    let request = headers(&[("Content-Length", "100000"), ("Path", "uploads")]);
    assert!(matches!(upload.plan(&request, "/srv/root"), Err(UploadFault::OutsideRoot)));
}

#[test]
fn traversal_that_stays_inside_is_resolved() {
    let (upload, _) = read_part("b.txt");
    let request = headers(&[("Content-Length", "100000"), ("Path", "a/../c/./")]);
    assert_eq!(upload.plan(&request, "/srv/root/").unwrap().target, "/srv/root/c/b.txt");
    let request = headers(&[("Content-Length", "100000"), ("Path", "/srv/root/deep")]);
    assert_eq!(upload.plan(&request, "/srv/root").unwrap().target, "/srv/root/deep/b.txt");
}

#[test]
fn refused_upload_is_a_400_page() {
    let error = UploadFault::OutsideRoot.into_error();
    assert_eq!(error.error_response.status_code, 400);
    assert_eq!(error.error_response.content_type, "text/html");
    match &error.error_response.body {
        Some(Body::Text(html)) => {
            assert!(html.contains("<h1>400 Bad Request</h1>"));
            assert!(html.contains(
                "<p>File upload error: Only paths relative to the current directory are allowed</p>"
            ));
        }
        other => panic!("unexpected body {:?}", other),
    }
}

#[test]
fn fault_messages() {
    let table = [
        (UploadFault::MissingBoundary, "Missing multipart boundary"),
        (UploadFault::MalformedHeader, "Error parsing multipart request"),
        (UploadFault::MissingDisposition, "Missing content disposition"),
        (UploadFault::MissingFilename, "Error parsing file name"),
        (UploadFault::MissingLength, "Missing content length"),
        (
            UploadFault::OutsideRoot,
            "Only paths relative to the current directory are allowed",
        ),
    ];
    for (fault, message) in table {
        assert_eq!(fault.describe(), message);
    }
}

#[test]
fn header_block_faults() {
    let mut upload = Upload::begin(CONTENT_TYPE).unwrap();
    assert!(matches!(upload.accept_line("no colon\r\n"), Err(UploadFault::MalformedHeader)));
    let mut upload = Upload::begin(CONTENT_TYPE).unwrap();
    assert!(matches!(upload.accept_line(""), Err(UploadFault::MalformedHeader)));
}

#[test]
fn plan_faults_in_order() {
    let request = headers(&[("Content-Length", "1000"), ("Path", "x")]);
    let mut upload = Upload::begin(CONTENT_TYPE).unwrap();
    upload.accept_line("Content-Type: text/plain\r\n").unwrap();
    assert!(matches!(upload.plan(&request, "/srv"), Err(UploadFault::MissingDisposition)));
    upload.accept_line("Content-Disposition: form-data; name=\"file\"\r\n").unwrap();
    assert!(matches!(upload.plan(&request, "/srv"), Err(UploadFault::MissingFilename)));
    upload.accept_line("Content-Disposition: form-data; filename=\"f\"\r\n").unwrap();
    assert!(matches!(
        upload.plan(&headers(&[("Content-Length", "1000")]), "/srv"),
        Err(UploadFault::MissingPath)
    ));
    assert!(matches!(
        upload.plan(&headers(&[("Path", "x")]), "/srv"),
        Err(UploadFault::MissingLength)
    ));
    assert!(matches!(
        upload.plan(&headers(&[("Path", "x"), ("Content-Length", "ten")]), "/srv"),
        Err(UploadFault::BadLength(_))
    ));
    assert!(upload.plan(&request, "/srv").is_ok());
}

#[test]
fn filename_ends_at_the_next_quote_or_the_end() {
    let request = headers(&[("Content-Length", "1000"), ("Path", "")]);
    let mut upload = Upload::begin(CONTENT_TYPE).unwrap();
    upload.accept_line("Content-Disposition: form-data; filename=\"a b.txt\"; x=\"y\"\r\n").unwrap();
    assert_eq!(upload.plan(&request, "/srv").unwrap().filename, "a b.txt");
    let mut upload = Upload::begin(CONTENT_TYPE).unwrap();
    upload.accept_line("Content-Disposition: form-data; filename=\"open\r\n").unwrap();
    assert_eq!(upload.plan(&request, "/srv").unwrap().filename, "open");
}

#[test]
fn header_values_end_at_the_second_colon() {
    let request = headers(&[("Content-Length", "1000"), ("Path", "")]);
    let mut upload = Upload::begin(CONTENT_TYPE).unwrap();
    upload.accept_line("  Content-Disposition :  form-data; filename=\"a\" : rest\r\n").unwrap();
    assert_eq!(upload.plan(&request, "/srv").unwrap().filename, "a");
}

#[test]
fn upload_path_resolves_by_text() {
    assert_eq!(upload_path("/srv", "a/b", "c.txt").as_deref(), Some("/srv/a/b/c.txt"));
    assert_eq!(upload_path("/srv/", "./a//b/", "c.txt").as_deref(), Some("/srv/a/b/c.txt"));
    assert_eq!(upload_path("/srv", "", "").as_deref(), Some("/srv"));
    assert_eq!(upload_path("/", "a", "b").as_deref(), Some("/a/b"));
    assert_eq!(upload_path("/", "..", "..").as_deref(), Some("/"));
    assert_eq!(upload_path("/srv", "..", "srv").as_deref(), Some("/srv"));
    assert_eq!(upload_path("/srv", "a", "/srv/b").as_deref(), Some("/srv/b"));
    assert_eq!(upload_path("/srv", "..", "x"), None);
    assert_eq!(upload_path("/srv", "a", "../../x"), None);
    assert_eq!(upload_path("/srv", "/srvx", "f"), None);
    assert_eq!(upload_path("/srv/a", "/srv", "f"), None);
}

#[test]
fn failed_reads_and_writes_are_400_pages() {
    let error = scratch_server::multipart::upload_io_error("disk full");
    assert_eq!(error.error_response.status_code, 400);
    assert_eq!(error.error_response.content_type, "text/html");
    match &error.error_response.body {
        Some(Body::Text(html)) => {
            assert!(html.contains("<h1>400 Bad Request</h1>"));
            assert!(html.contains("<p>File upload error: disk full</p>"));
        }
        other => panic!("unexpected body {:?}", other),
    }
}
