//! The response object and its wire format.
use crate::encoding::{gzip, gzip_stream};
use crate::number::{decimal, push_decimal};
use crate::text::{extend_str, string_of};
use vstd::prelude::*;
use vstd::slice::slice_to_vec;
use vstd::string::StringSliceAdditionalSpecFns;
use vstd::utf8::encode_utf8;

verus! {

/// A file whose content is to be streamed as a response body.
///
/// The library never opens the file: it records where the file is and how
/// many bytes it holds, and whoever writes the response copies them.
#[derive(Debug)]
pub struct FileSource {
    pub path: String,
    pub size: u64,
}

/// A response body.
#[derive(Debug)]
pub enum Body {
    /// Text held in memory.
    Text(String),
    /// A serialized JSON document held in memory.
    Json(String),
    /// A file streamed inline, with its name.
    FileStream(FileSource, String),
    /// Bytes built into the program, with their name.
    StaticFile(&'static [u8], String),
    /// A file streamed as a download, with the name offered to the client.
    Attachment(FileSource, String),
}

/// An HTTP response before serialization.
#[derive(Debug)]
pub struct HttpResponse {
    pub content_type: String,
    pub body: Option<Body>,
    pub status_code: u16,
    pub headers: Vec<(String, String)>,
}

/// A serialized response: the header block, the body bytes that follow it,
/// and the file, if any, whose content follows those.
#[derive(Debug)]
pub struct WireResponse {
    pub head: String,
    pub payload: Vec<u8>,
    pub file: Option<FileSource>,
}

/// Why a response could not be serialized.
#[derive(Debug)]
pub enum WriteError {
    /// The gzip encoder failed.
    Compression,
}

/// A `FileSource` as a mathematical value.
pub struct FileView {
    pub path: Seq<char>,
    pub size: u64,
}

/// A `Body` as a mathematical value.
pub enum BodyView {
    Text(Seq<char>),
    Json(Seq<char>),
    FileStream(FileView, Seq<char>),
    StaticFile(Seq<u8>, Seq<char>),
    Attachment(FileView, Seq<char>),
}

/// An `HttpResponse` as a mathematical value.
pub struct ResponseView {
    pub content_type: Seq<char>,
    pub body: Option<BodyView>,
    pub status_code: u16,
    pub headers: Seq<(Seq<char>, Seq<char>)>,
}

/// A `WireResponse` as a mathematical value.
pub struct WireView {
    pub head: Seq<char>,
    pub payload: Seq<u8>,
    pub file: Option<FileView>,
}

impl View for FileSource {
    type V = FileView;

    open spec fn view(&self) -> FileView {
        FileView { path: self.path@, size: self.size }
    }
}

impl View for Body {
    type V = BodyView;

    open spec fn view(&self) -> BodyView {
        match self {
            Body::Text(text) => BodyView::Text(text@),
            Body::Json(json) => BodyView::Json(json@),
            Body::FileStream(file, name) => BodyView::FileStream(file@, name@),
            Body::StaticFile(bytes, name) => BodyView::StaticFile(bytes@, name@),
            Body::Attachment(file, name) => BodyView::Attachment(file@, name@),
        }
    }
}

/// The view of an optional body.
pub open spec fn body_view(body: Option<Body>) -> Option<BodyView> {
    match body {
        Some(b) => Some(b@),
        None => None,
    }
}

/// The view of an optional file.
pub open spec fn file_view(file: Option<FileSource>) -> Option<FileView> {
    match file {
        Some(f) => Some(f@),
        None => None,
    }
}

impl View for HttpResponse {
    type V = ResponseView;

    open spec fn view(&self) -> ResponseView {
        ResponseView {
            content_type: self.content_type@,
            body: body_view(self.body),
            status_code: self.status_code,
            headers: self.headers.deep_view(),
        }
    }
}

impl View for WireResponse {
    type V = WireView;

    open spec fn view(&self) -> WireView {
        WireView { head: self.head@, payload: self.payload@, file: file_view(self.file) }
    }
}

/// A header line: name, colon, space, value, CRLF.
pub open spec fn header_line(name: Seq<char>, value: Seq<char>) -> Seq<char> {
    name + ": "@ + value + "\r\n"@
}

/// The header lines of `headers`, in order.
pub open spec fn header_lines(headers: Seq<(Seq<char>, Seq<char>)>) -> Seq<char>
    decreases headers.len(),
{
    if headers.len() == 0 {
        Seq::empty()
    } else {
        header_lines(headers.drop_last()) + header_line(headers.last().0, headers.last().1)
    }
}

/// The `Content-Length` line for a body of `n` bytes.
pub open spec fn length_line(n: nat) -> Seq<char> {
    "Content-Length: "@ + decimal(n) + "\r\n"@
}

/// The two lines that announce a gzip-compressed body.
pub open spec fn gzip_lines() -> Seq<char> {
    "Content-Encoding: gzip\r\n"@ + "Vary: Accept-Encoding\r\n"@
}

/// The line that offers the body as a download named `name`.
pub open spec fn disposition_line(name: Seq<char>) -> Seq<char> {
    "Content-Disposition: attachment; filename=\""@ + name + "\"\r\n"@
}

impl BodyView {
    /// The bytes of a body that is held in memory.
    pub open spec fn memory_bytes(self) -> Option<Seq<u8>> {
        match self {
            BodyView::Text(text) => Some(encode_utf8(text)),
            BodyView::Json(json) => Some(encode_utf8(json)),
            BodyView::StaticFile(bytes, _) => Some(bytes),
            BodyView::FileStream(_, _) => None,
            BodyView::Attachment(_, _) => None,
        }
    }
}

impl ResponseView {
    /// This response with `extra` after the headers it has.
    pub open spec fn with_headers(self, extra: Seq<(Seq<char>, Seq<char>)>) -> ResponseView {
        ResponseView { headers: self.headers + extra, ..self }
    }

    /// The part of the header block that does not depend on the body: status
    /// line, `Content-Type`, `Connection`, `Server`, then the added headers
    /// in insertion order.
    pub open spec fn fixed_head(self) -> Seq<char> {
        "HTTP/1.1 "@ + decimal(self.status_code as nat) + "\r\n"@ + header_line(
            "Content-Type"@,
            self.content_type,
        ) + "Connection: keep-alive\r\n"@ + "Server: RustHttpServer/1.0\r\n"@ + header_lines(
            self.headers,
        )
    }

    /// The lines of the header block that depend on the body, for a body of
    /// `length` bytes on the wire: `Content-Length`; the two gzip lines where
    /// the body is compressed; `Content-Disposition` for a download.
    pub open spec fn body_lines(length: nat, compressed: bool, download: Option<Seq<char>>) -> Seq<
        char,
    > {
        length_line(length) + (if compressed {
            gzip_lines()
        } else {
            Seq::empty()
        }) + (match download {
            Some(name) => disposition_line(name),
            None => Seq::empty(),
        })
    }

    /// The wire form of this response, with `stream` in place of a body that
    /// is held in memory.
    ///
    /// A response without a body has no body-dependent lines. A file is
    /// announced with its size and left to be streamed; `stream` does not
    /// apply to it. A body held in memory is sent as it is where there is no
    /// `stream`; otherwise `stream` is sent and announced as gzip.
    pub open spec fn assembled(self, stream: Option<Seq<u8>>) -> WireView {
        let fixed = self.fixed_head();
        match self.body {
            None => WireView { head: fixed + "\r\n"@, payload: Seq::empty(), file: None },
            Some(BodyView::FileStream(file, _)) => WireView {
                head: fixed + Self::body_lines(file.size as nat, false, None) + "\r\n"@,
                payload: Seq::empty(),
                file: Some(file),
            },
            Some(BodyView::Attachment(file, name)) => WireView {
                head: fixed + Self::body_lines(file.size as nat, false, Some(name)) + "\r\n"@,
                payload: Seq::empty(),
                file: Some(file),
            },
            Some(body) => match stream {
                Some(stream) => WireView {
                    head: fixed + Self::body_lines(stream.len(), true, None) + "\r\n"@,
                    payload: stream,
                    file: None,
                },
                None => WireView {
                    head: fixed + Self::body_lines(body.memory_bytes()->0.len(), false, None)
                        + "\r\n"@,
                    payload: body.memory_bytes()->0,
                    file: None,
                },
            },
        }
    }

    /// The bytes of the body, where there is one and it is held in memory.
    pub open spec fn memory_bytes(self) -> Option<Seq<u8>> {
        match self.body {
            Some(body) => body.memory_bytes(),
            None => None,
        }
    }

    /// What serialization makes of this response; `None` where the gzip
    /// encoder fails. With compression on, a body held in memory is replaced
    /// by its gzip stream.
    pub open spec fn wire(self, compression: bool) -> Option<WireView> {
        if compression && self.memory_bytes() is Some {
            match gzip_stream(self.memory_bytes()->0) {
                Some(stream) => Some(self.assembled(Some(stream))),
                None => None,
            }
        } else {
            Some(self.assembled(None))
        }
    }
}

impl WireView {
    /// The number of body bytes that follow the header block: the payload,
    /// then the whole file if there is one.
    pub open spec fn body_len(self) -> nat {
        match self.file {
            Some(file) => self.payload.len() + file.size as nat,
            None => self.payload.len(),
        }
    }
}

/// The response is byte-complete: whenever a response with a body is
/// serialized, its header block is the fixed part, then the `Content-Length`
/// line for exactly the number of body bytes that follow the header block,
/// then the remaining body-dependent lines and the empty line. Where
/// compression is on and the body is held in memory, that number is the
/// length of the gzip stream, and the two gzip lines follow the length line.
pub proof fn lemma_content_length(response: ResponseView, compression: bool)
    requires
        response.body is Some,
        response.wire(compression) is Some,
    ensures
        ({
            let w = response.wire(compression)->0;
            let compressed = compression && response.body->0.memory_bytes() is Some;
            &&& exists|rest: Seq<char>|
                w.head == response.fixed_head() + length_line(w.body_len()) + rest + "\r\n"@
            &&& compressed ==> w.payload == gzip_stream(response.body->0.memory_bytes()->0)->0
            &&& compressed ==> exists|rest: Seq<char>|
                w.head == response.fixed_head() + length_line(w.payload.len()) + gzip_lines() + rest
                    + "\r\n"@
        }),
{
    let w = response.wire(compression)->0;
    let fixed = response.fixed_head();
    let empty = Seq::<char>::empty();
    match response.body->0 {
        BodyView::FileStream(file, _) => {
            assert(w.head =~= fixed + length_line(w.body_len()) + empty + "\r\n"@);
        },
        BodyView::Attachment(file, name) => {
            assert(w.head =~= fixed + length_line(w.body_len()) + disposition_line(name) + "\r\n"@);
        },
        _ => {
            if compression {
                assert(w.head =~= fixed + length_line(w.body_len()) + gzip_lines() + "\r\n"@);
                assert(w.head =~= fixed + length_line(w.payload.len()) + gzip_lines() + empty
                    + "\r\n"@);
            } else {
                assert(w.head =~= fixed + length_line(w.body_len()) + empty + "\r\n"@);
            }
        },
    }
}

impl HttpResponse {
    /// A response with the given body and status, without added headers. The
    /// content type defaults to `application/json`.
    pub fn new(body: Option<Body>, content_type: Option<String>, status_code: u16) -> (r: Self)
        ensures
            r.body == body,
            r@ == (ResponseView {
                content_type: match content_type {
                    Some(t) => t@,
                    None => "application/json"@,
                },
                body: body_view(body),
                status_code,
                headers: Seq::empty(),
            }),
    {
        let content_type = match content_type {
            Some(t) => t,
            None => "application/json".to_owned(),
        };
        let r = HttpResponse { content_type, body, status_code, headers: Vec::new() };
        assert(r.headers.deep_view() =~= Seq::empty());
        r
    }

    /// This response with one more header, after those it has.
    pub fn add_response_header(self, key: &str, value: &str) -> (r: Self)
        ensures
            r.body == self.body,
            r@ == self@.with_headers(seq![(key@, value@)]),
    {
        let mut r = self;
        let ghost before = r.headers.deep_view();
        r.headers.push((key.to_owned(), value.to_owned()));
        assert(r.headers.deep_view() =~= before + seq![(key@, value@)]);
        r
    }

    /// This response with a copy of each of `extra` after the headers it has.
    pub fn add_response_headers(self, extra: &Vec<(String, String)>) -> (r: Self)
        ensures
            r.body == self.body,
            r@ == self@.with_headers(extra.deep_view()),
    {
        let mut r = self;
        let ghost before = r.headers.deep_view();
        let ghost all = extra.deep_view();
        let mut i: usize = 0;
        assert(r.headers.deep_view() =~= before + all.take(0));
        while i < extra.len()
            invariant
                i <= extra@.len(),
                all == extra.deep_view(),
                r.body == self.body,
                r.content_type == self.content_type,
                r.status_code == self.status_code,
                r.headers.deep_view() == before + all.take(i as int),
            decreases extra@.len() - i,
        {
            let ghost sofar = r.headers.deep_view();
            let pair = &extra[i];
            r.headers.push((pair.0.clone(), pair.1.clone()));
            assert(r.headers.deep_view() =~= sofar.push((pair.0@, pair.1@)));
            assert(before + all.take(i + 1) =~= (before + all.take(i as int)).push(all[i as int]));
            i += 1;
        }
        assert(all.take(i as int) =~= all);
        r
    }

    /// The fixed part of the header block, as characters.
    fn fixed_head_chars(&self) -> (out: Vec<char>)
        ensures
            out@ == self@.fixed_head(),
    {
        let mut out: Vec<char> = Vec::new();
        extend_str(&mut out, "HTTP/1.1 ");
        push_decimal(&mut out, self.status_code as u64);
        extend_str(&mut out, "\r\n");
        extend_str(&mut out, "Content-Type");
        extend_str(&mut out, ": ");
        extend_str(&mut out, self.content_type.as_str());
        extend_str(&mut out, "\r\n");
        extend_str(&mut out, "Connection: keep-alive\r\n");
        extend_str(&mut out, "Server: RustHttpServer/1.0\r\n");
        let ghost prefix = out@;
        let ghost all = self.headers.deep_view();
        assert(prefix =~= "HTTP/1.1 "@ + decimal(self.status_code as nat) + "\r\n"@ + header_line(
            "Content-Type"@,
            self.content_type@,
        ) + "Connection: keep-alive\r\n"@ + "Server: RustHttpServer/1.0\r\n"@);
        let mut i: usize = 0;
        assert(all.take(0) =~= Seq::empty());
        assert(prefix + header_lines(all.take(0)) =~= prefix);
        while i < self.headers.len()
            invariant
                i <= self.headers@.len(),
                all == self.headers.deep_view(),
                out@ == prefix + header_lines(all.take(i as int)),
            decreases self.headers@.len() - i,
        {
            let pair = &self.headers[i];
            let ghost start = out@;
            extend_str(&mut out, pair.0.as_str());
            extend_str(&mut out, ": ");
            extend_str(&mut out, pair.1.as_str());
            extend_str(&mut out, "\r\n");
            proof {
                let next = all.take(i + 1);
                assert(next.drop_last() =~= all.take(i as int));
                assert(next.last() == (pair.0@, pair.1@));
                assert(out@ =~= start + header_line(pair.0@, pair.1@));
                assert(out@ =~= prefix + header_lines(next));
            }
            i += 1;
        }
        assert(all.take(i as int) =~= all);
        out
    }

    /// Serializes this response.
    ///
    /// The header block holds, in this order: the status line, `Content-Type`,
    /// `Connection: keep-alive`, `Server`, the added headers in insertion
    /// order, then what depends on the body, and an empty line. A body held in
    /// memory is sent whole, gzip-compressed when `compression` is set;
    /// `Content-Length` is the number of bytes that are sent. A file is never
    /// compressed: `Content-Length` is its size, and its content is left to
    /// the caller to copy after the header block.
    pub fn write_response(self, compression: bool) -> (r: Result<WireResponse, WriteError>)
        ensures
            match self@.wire(compression) {
                Some(wire) => r matches Ok(w) && w@ == wire,
                None => r is Err,
            },
    {
        if !compression {
            return Ok(self.assemble(None));
        }
        match self.memory_bytes() {
            Some(raw) => match gzip(raw.as_slice()) {
                Some(stream) => Ok(self.assemble(Some(stream))),
                None => Err(WriteError::Compression),
            },
            None => Ok(self.assemble(None)),
        }
    }

    /// The bytes of the body, where it is held in memory.
    pub fn memory_bytes(&self) -> (r: Option<Vec<u8>>)
        ensures
            match self@.body {
                Some(body) => bytes_view(r) == body.memory_bytes(),
                None => r is None,
            },
    {
        match &self.body {
            Some(Body::Text(text)) => Some(slice_to_vec(text.as_str().as_bytes())),
            Some(Body::Json(json)) => Some(slice_to_vec(json.as_str().as_bytes())),
            Some(Body::StaticFile(bytes, _)) => Some(slice_to_vec(bytes)),
            _ => None,
        }
    }

    /// Serializes this response, with `stream` in place of a body that is held
    /// in memory: the body is announced as gzip-compressed and `stream` is
    /// sent for it. Without `stream`, and for a file, the body is sent as it
    /// is.
    pub fn assemble(self, stream: Option<Vec<u8>>) -> (w: WireResponse)
        ensures
            w@ == self@.assembled(bytes_view(stream)),
    {
        let mut head = self.fixed_head_chars();
        let ghost fixed = self@.fixed_head();
        let ghost empty = Seq::<char>::empty();
        match self.body {
            None => {
                extend_str(&mut head, "\r\n");
                WireResponse { head: string_of(head.as_slice()), payload: Vec::new(), file: None }
            },
            Some(Body::FileStream(file, _)) => {
                push_length_line(&mut head, file.size);
                extend_str(&mut head, "\r\n");
                assert(head@ =~= fixed + (length_line(file.size as nat) + empty + empty) + "\r\n"@);
                WireResponse {
                    head: string_of(head.as_slice()),
                    payload: Vec::new(),
                    file: Some(file),
                }
            },
            Some(Body::Attachment(file, name)) => {
                push_length_line(&mut head, file.size);
                extend_str(&mut head, "Content-Disposition: attachment; filename=\"");
                extend_str(&mut head, name.as_str());
                extend_str(&mut head, "\"\r\n");
                extend_str(&mut head, "\r\n");
                assert(head@ =~= fixed + (length_line(file.size as nat) + empty + disposition_line(
                    name@,
                )) + "\r\n"@);
                WireResponse {
                    head: string_of(head.as_slice()),
                    payload: Vec::new(),
                    file: Some(file),
                }
            },
            Some(body) => {
                match stream {
                    Some(stream) => {
                        push_length_line(&mut head, stream.len() as u64);
                        extend_str(&mut head, "Content-Encoding: gzip\r\n");
                        extend_str(&mut head, "Vary: Accept-Encoding\r\n");
                        extend_str(&mut head, "\r\n");
                        assert(head@ =~= fixed + (length_line(stream@.len()) + gzip_lines() + empty)
                            + "\r\n"@);
                        WireResponse { head: string_of(head.as_slice()), payload: stream, file: None }
                    },
                    None => {
                        let raw: Vec<u8> = match body {
                            Body::Text(text) => slice_to_vec(text.as_str().as_bytes()),
                            Body::Json(json) => slice_to_vec(json.as_str().as_bytes()),
                            Body::StaticFile(bytes, _) => slice_to_vec(bytes),
                            _ => Vec::new(),
                        };
                        assert(raw@ == body@.memory_bytes()->0);
                        push_length_line(&mut head, raw.len() as u64);
                        extend_str(&mut head, "\r\n");
                        assert(head@ =~= fixed + (length_line(raw@.len()) + empty + empty)
                            + "\r\n"@);
                        WireResponse { head: string_of(head.as_slice()), payload: raw, file: None }
                    },
                }
            },
        }
    }
}

/// The view of optional bytes.
pub open spec fn bytes_view(bytes: Option<Vec<u8>>) -> Option<Seq<u8>> {
    match bytes {
        Some(b) => Some(b@),
        None => None,
    }
}

/// Appends the `Content-Length` line for `n` bytes.
fn push_length_line(out: &mut Vec<char>, n: u64)
    ensures
        final(out)@ == old(out)@ + length_line(n as nat),
{
    extend_str(out, "Content-Length: ");
    push_decimal(out, n);
    extend_str(out, "\r\n");
    assert(final(out)@ =~= old(out)@ + length_line(n as nat));
}

impl WireView {
    /// The bytes to send before the content of the file: the header block in
    /// UTF-8, then the payload.
    pub open spec fn bytes(self) -> Seq<u8> {
        encode_utf8(self.head) + self.payload
    }
}

impl WireResponse {
    /// The bytes to send before the content of `file`.
    pub fn into_bytes(self) -> (r: Vec<u8>)
        ensures
            r@ == self@.bytes(),
    {
        let mut r = slice_to_vec(self.head.as_str().as_bytes());
        let mut payload = self.payload;
        r.append(&mut payload);
        r
    }
}

} // verus!
