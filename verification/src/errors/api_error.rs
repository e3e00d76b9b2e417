use crate::encoding::{json_quote, json_string};
use crate::errors::http_parse_error::HttpParseError;
use crate::errors::io_error::{io_error_is_not_found, io_error_text};
use crate::http_response::{Body, BodyView, HttpResponse, ResponseView};
use crate::number::{decimal, push_decimal};
use crate::text::{extend_str, string_of};
use vstd::prelude::*;

verus! {

/// The error page up to the status code.
pub const PAGE_OPENING: &'static str = "<!DOCTYPE html>\n    <html lang=\"en\">\n    <head>\n        <meta charset=\"UTF-8\">\n        <meta name=\"viewport\" content=\"width=device-width, initial-scale=1.0\">\n        <title>Error</title>\n        <style>\n        body {\n            display: flex;\n            justify-content: center;\n            align-items: center;\n            height: 100vh;\n            font-family: Arial, sans-serif;\n        }\n        .error-container {\n            text-align: center;\n        }\n        .error-container h1 {\n            font-size: 3em;\n            color: #ff0000;\n        }\n        .error-container p {\n            font-size: 1.5em;\n        }\n    </style>\n    </head>\n\n    <body>\n        <div class=\"error-container\">\n            <h1>";

/// The error page between the reason phrase and the message.
pub const PAGE_MIDDLE: &'static str = "</h1>\n            <p>";

/// The error page after the message.
pub const PAGE_CLOSING: &'static str = "</p>\n        </div>\n    </body>\n    </html>";

/// A failure that carries the response to send, and the request it belongs
/// to once the router has attached it.
#[derive(Debug)]
pub struct ApiError {
    pub error_response: HttpResponse,
    pub method: Option<String>,
    pub path: Option<String>,
}

/// The canonical reason phrase of a status code.
pub open spec fn reason_phrase(status_code: u16) -> Seq<char> {
    if status_code == 200 {
        "OK"@
    } else if status_code == 201 {
        "Created"@
    } else if status_code == 204 {
        "No Content"@
    } else if status_code == 301 {
        "Moved Permanently"@
    } else if status_code == 302 {
        "Found"@
    } else if status_code == 304 {
        "Not Modified"@
    } else if status_code == 400 {
        "Bad Request"@
    } else if status_code == 401 {
        "Unauthorized"@
    } else if status_code == 403 {
        "Forbidden"@
    } else if status_code == 404 {
        "Not Found"@
    } else if status_code == 405 {
        "Method Not Allowed"@
    } else if status_code == 500 {
        "Internal Server Error"@
    } else if status_code == 501 {
        "Not Implemented"@
    } else if status_code == 502 {
        "Bad Gateway"@
    } else if status_code == 503 {
        "Service Unavailable"@
    } else {
        "Unknown Status Code"@
    }
}

/// The canonical reason phrase of a status code.
pub fn get_cannonical_reason(status_code: u16) -> (r: &'static str)
    ensures
        r@ == reason_phrase(status_code),
{
    match status_code {
        200 => "OK",
        201 => "Created",
        204 => "No Content",
        301 => "Moved Permanently",
        302 => "Found",
        304 => "Not Modified",
        400 => "Bad Request",
        401 => "Unauthorized",
        403 => "Forbidden",
        404 => "Not Found",
        405 => "Method Not Allowed",
        500 => "Internal Server Error",
        501 => "Not Implemented",
        502 => "Bad Gateway",
        503 => "Service Unavailable",
        _ => "Unknown Status Code",
    }
}

/// The HTML page that reports `message` under the heading made of the status
/// code and its reason phrase.
pub open spec fn error_page(status_code: u16, message: Seq<char>) -> Seq<char> {
    PAGE_OPENING@ + decimal(status_code as nat) + " "@ + reason_phrase(status_code) + PAGE_MIDDLE@
        + message + PAGE_CLOSING@
}

/// The JSON document whose single member `message` is the JSON string
/// `quoted`.
pub open spec fn message_object(quoted: Seq<char>) -> Seq<char> {
    "{\"message\":"@ + quoted + "}"@
}

/// The JSON document with the single member `message`.
pub open spec fn message_document(message: Seq<char>) -> Seq<char> {
    message_object(json_string(message))
}

/// The JSON document whose single member `message` is the JSON string
/// `quoted`.
pub fn message_around(quoted: &str) -> (r: String)
    ensures
        r@ == message_object(quoted@),
{
    let mut out: Vec<char> = Vec::new();
    extend_str(&mut out, "{\"message\":");
    extend_str(&mut out, quoted);
    extend_str(&mut out, "}");
    assert(out@ =~= message_object(quoted@));
    string_of(out.as_slice())
}

/// The JSON document with the single member `message`.
pub fn message_json(message: &str) -> (r: String)
    ensures
        r@ == message_document(message@),
{
    let quoted = json_quote(message);
    message_around(quoted.as_str())
}

/// The HTML error response for `error_code` and `message`.
pub fn format_error(error_code: u16, message: String) -> (r: HttpResponse)
    ensures
        r@ == html_response(error_code, message@),
{
    let mut out: Vec<char> = Vec::new();
    extend_str(&mut out, PAGE_OPENING);
    push_decimal(&mut out, error_code as u64);
    extend_str(&mut out, " ");
    extend_str(&mut out, get_cannonical_reason(error_code));
    extend_str(&mut out, PAGE_MIDDLE);
    extend_str(&mut out, message.as_str());
    extend_str(&mut out, PAGE_CLOSING);
    assert(out@ =~= error_page(error_code, message@));
    HttpResponse::new(
        Some(Body::Text(string_of(out.as_slice()))),
        Some("text/html".to_owned()),
        error_code,
    )
}

/// The response that reports `message` under status `code` as an HTML page.
pub open spec fn html_response(code: u16, message: Seq<char>) -> ResponseView {
    ResponseView {
        content_type: "text/html"@,
        body: Some(BodyView::Text(error_page(code, message))),
        status_code: code,
        headers: Seq::empty(),
    }
}

/// The response that reports `message` under status `code` as a JSON
/// document.
pub open spec fn json_response(code: u16, message: Seq<char>) -> ResponseView {
    ResponseView {
        content_type: "application/json"@,
        body: Some(BodyView::Json(message_document(message))),
        status_code: code,
        headers: Seq::empty(),
    }
}

/// An `ApiError` as a mathematical value.
pub struct ApiErrorView {
    pub error_response: ResponseView,
    pub method: Option<Seq<char>>,
    pub path: Option<Seq<char>>,
}

/// The view of an optional string.
pub open spec fn text_view(text: Option<String>) -> Option<Seq<char>> {
    match text {
        Some(t) => Some(t@),
        None => None,
    }
}

impl View for ApiError {
    type V = ApiErrorView;

    open spec fn view(&self) -> ApiErrorView {
        ApiErrorView {
            error_response: self.error_response@,
            method: text_view(self.method),
            path: text_view(self.path),
        }
    }
}

impl ApiErrorView {
    /// The error that carries `response` and no request.
    pub open spec fn bare(response: ResponseView) -> ApiErrorView {
        ApiErrorView { error_response: response, method: None, path: None }
    }

    /// The error that reports `message` under status `code` as an HTML page.
    pub open spec fn html(code: u16, message: Seq<char>) -> ApiErrorView {
        Self::bare(html_response(code, message))
    }

    /// The error that reports `message` under status `code` as a JSON
    /// document.
    pub open spec fn json(code: u16, message: Seq<char>) -> ApiErrorView {
        Self::bare(json_response(code, message))
    }
}

impl ApiError {
    /// An error answered with an HTML page.
    pub fn new_with_html(code: u16, message: String) -> (r: Self)
        ensures
            r@ == ApiErrorView::html(code, message@),
    {
        ApiError { error_response: format_error(code, message), method: None, path: None }
    }

    /// An error answered with a JSON document.
    pub fn new_with_json(code: u16, message: String) -> (r: Self)
        ensures
            r@ == ApiErrorView::json(code, message@),
    {
        ApiError {
            error_response: HttpResponse::new(
                Some(Body::Json(message_json(message.as_str()))),
                None,
                code,
            ),
            method: None,
            path: None,
        }
    }

    /// An error answered with an HTML page; the same as `new_with_html`.
    pub fn new(code: u16, message: String) -> (r: Self)
        ensures
            r@ == ApiErrorView::html(code, message@),
    {
        ApiError::new_with_html(code, message)
    }

    /// The error for a failed file or socket operation: 404 where the file was
    /// not found, 500 otherwise, with an HTML page that holds `detail` after
    /// `IO Error: `.
    pub fn from_io(not_found: bool, detail: &str) -> (r: Self)
        ensures
            r@ == ApiErrorView::html(
                if not_found {
                    404
                } else {
                    500
                },
                "IO Error: "@ + detail@,
            ),
    {
        let mut out: Vec<char> = Vec::new();
        extend_str(&mut out, "IO Error: ");
        extend_str(&mut out, detail);
        assert(out@ =~= "IO Error: "@ + detail@);
        let message = string_of(out.as_slice());
        ApiError::new_with_html(
            if not_found {
                404
            } else {
                500
            },
            message,
        )
    }

    /// The error for a value that could not be serialized as JSON: 400, with
    /// a JSON document that holds `detail` after
    /// `JSON Serialization Error: `.
    pub fn from_json_error(detail: &str) -> (r: Self)
        ensures
            r@ == ApiErrorView::json(400, "JSON Serialization Error: "@ + detail@),
    {
        let mut out: Vec<char> = Vec::new();
        extend_str(&mut out, "JSON Serialization Error: ");
        extend_str(&mut out, detail);
        assert(out@ =~= "JSON Serialization Error: "@ + detail@);
        let message = string_of(out.as_slice());
        ApiError::new_with_json(400, message)
    }

    /// The error for a failure described only by a message: 500, with a JSON
    /// document that holds the message.
    pub fn from_message(message: &str) -> (r: Self)
        ensures
            r@ == ApiErrorView::json(500, message@),
    {
        ApiError::new_with_json(500, message.to_owned())
    }

    /// The error for a request that could not be parsed: 400, with a JSON
    /// document that holds the parser's message after
    /// `Error parsing HTTP request: `.
    pub fn from_parse_error(error: HttpParseError) -> (r: Self)
        ensures
            r@ == ApiErrorView::json(400, "Error parsing HTTP request: "@ + error.message@),
    {
        let mut out: Vec<char> = Vec::new();
        extend_str(&mut out, "Error parsing HTTP request: ");
        extend_str(&mut out, error.message.as_str());
        assert(out@ =~= "Error parsing HTTP request: "@ + error.message@);
        let message = string_of(out.as_slice());
        ApiError::new_with_json(400, message)
    }
}

impl From<&str> for ApiError {
    /// The same as `from_message`.
    fn from(error: &str) -> (r: ApiError)
        ensures
            r@ == ApiErrorView::json(500, error@),
    {
        ApiError::from_message(error)
    }
}

impl vstd::std_specs::convert::FromSpecImpl<&str> for ApiError {
    open spec fn obeys_from_spec() -> bool {
        false
    }

    open spec fn from_spec(v: &str) -> Self {
        arbitrary()
    }
}

impl From<HttpParseError> for ApiError {
    /// The same as `from_parse_error`.
    fn from(error: HttpParseError) -> (r: ApiError)
        ensures
            r@ == ApiErrorView::json(400, "Error parsing HTTP request: "@ + error.message@),
    {
        ApiError::from_parse_error(error)
    }
}

impl vstd::std_specs::convert::FromSpecImpl<HttpParseError> for ApiError {
    open spec fn obeys_from_spec() -> bool {
        false
    }

    open spec fn from_spec(v: HttpParseError) -> Self {
        arbitrary()
    }
}

impl From<std::io::Error> for ApiError {
    /// The error for a failed file or socket operation: 404 where something
    /// was not found, 500 otherwise, with an HTML page that holds the text of
    /// `error` after `IO Error: `.
    fn from(error: std::io::Error) -> (r: ApiError)
        ensures
            exists|detail: Seq<char>|
                r@ == #[trigger] ApiErrorView::html(404, "IO Error: "@ + detail) || r@
                    == ApiErrorView::html(500, "IO Error: "@ + detail),
    {
        let detail = io_error_text(&error);
        let r = ApiError::from_io(io_error_is_not_found(&error), detail.as_str());
        assert(r@ == ApiErrorView::html(404, "IO Error: "@ + detail@) || r@ == ApiErrorView::html(
            500,
            "IO Error: "@ + detail@,
        ));
        r
    }
}

impl vstd::std_specs::convert::FromSpecImpl<std::io::Error> for ApiError {
    open spec fn obeys_from_spec() -> bool {
        false
    }

    open spec fn from_spec(v: std::io::Error) -> Self {
        arbitrary()
    }
}

/// Trusted declaration of `serde_json::Error`, which this crate only turns
/// into text.
#[verifier::external_type_specification]
#[verifier::external_body]
pub struct ExJsonError(serde_json::Error);

/// Trusted: the `Display` form of a `serde_json::Error`. Nothing is claimed
/// of the text.
#[verifier::external_body]
fn json_error_text(error: &serde_json::Error) -> String {
    error.to_string()
}

impl From<serde_json::Error> for ApiError {
    /// The error for a value that could not be serialized as JSON: 400, with
    /// a JSON document that holds the text of `error` after
    /// `JSON Serialization Error: `.
    fn from(error: serde_json::Error) -> (r: ApiError)
        ensures
            exists|detail: Seq<char>|
                r@ == #[trigger] ApiErrorView::json(400, "JSON Serialization Error: "@ + detail),
    {
        let detail = json_error_text(&error);
        let r = ApiError::from_json_error(detail.as_str());
        assert(r@ == ApiErrorView::json(400, "JSON Serialization Error: "@ + detail@));
        r
    }
}

impl vstd::std_specs::convert::FromSpecImpl<serde_json::Error> for ApiError {
    open spec fn obeys_from_spec() -> bool {
        false
    }

    open spec fn from_spec(v: serde_json::Error) -> Self {
        arbitrary()
    }
}

} // verus!
