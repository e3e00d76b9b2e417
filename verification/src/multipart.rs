//! Receiving one file as `multipart/form-data`.
//!
//! The caller reads the part's header block line by line and hands each line
//! to `Upload::accept_line`. Once the block has ended, `Upload::plan` says
//! where the file goes and how many bytes of the stream belong to it.
use crate::errors::api_error::{ApiError, ApiErrorView};
use crate::http_response::{Body, BodyView, HttpResponse, ResponseView};
use crate::number::{read_number, read_usize, NumberFault};
use crate::paths::{join, upload_path, upload_target};
use crate::text::{
    chars_eq, chars_of, copy_range, extend_str, find, find_char, find_chars, lemma_find_within,
    lemma_position, position, str_eq, string_of,
};
use crate::text_map::TextMap;
use crate::tokens::{split, split_chars, texts, trim, trim_chars};
use vstd::prelude::*;
use vstd::string::StringSliceAdditionalSpecFns;
use vstd::utf8::encode_utf8;

verus! {

/// Why an upload is refused.
#[derive(Debug, Clone, Copy)]
pub enum UploadFault {
    /// The content type names no boundary.
    MissingBoundary,
    /// The part's header block is longer than the machine can count.
    HeaderTooLong,
    /// A line of the part's header block holds no colon.
    MalformedHeader,
    /// The part has no `Content-Disposition` header.
    MissingDisposition,
    /// The `Content-Disposition` header names no file.
    MissingFilename,
    /// The request has no `Path` header.
    MissingPath,
    /// The file would be written outside the root directory.
    OutsideRoot,
    /// The request has no `Content-Length` header.
    MissingLength,
    /// The `Content-Length` header is no number.
    BadLength(NumberFault),
    /// The content is shorter than the framing around the file.
    ShortContent,
}

impl UploadFault {
    /// The message that reports this fault.
    pub open spec fn message(self) -> Seq<char> {
        match self {
            UploadFault::MissingBoundary => "Missing multipart boundary"@,
            UploadFault::HeaderTooLong => "Multipart headers too long"@,
            UploadFault::MalformedHeader => "Error parsing multipart request"@,
            UploadFault::MissingDisposition => "Missing content disposition"@,
            UploadFault::MissingFilename => "Error parsing file name"@,
            UploadFault::MissingPath => "Missing path header"@,
            UploadFault::OutsideRoot => "Only paths relative to the current directory are allowed"@,
            UploadFault::MissingLength => "Missing content length"@,
            UploadFault::BadLength(fault) => fault.message(),
            UploadFault::ShortContent => "Content length too short"@,
        }
    }

    /// The message that reports this fault.
    pub fn describe(&self) -> (r: &'static str)
        ensures
            r@ == self.message(),
    {
        match self {
            UploadFault::MissingBoundary => "Missing multipart boundary",
            UploadFault::HeaderTooLong => "Multipart headers too long",
            UploadFault::MalformedHeader => "Error parsing multipart request",
            UploadFault::MissingDisposition => "Missing content disposition",
            UploadFault::MissingFilename => "Error parsing file name",
            UploadFault::MissingPath => "Missing path header",
            UploadFault::OutsideRoot => "Only paths relative to the current directory are allowed",
            UploadFault::MissingLength => "Missing content length",
            UploadFault::BadLength(fault) => fault.describe(),
            UploadFault::ShortContent => "Content length too short",
        }
    }

    /// The error that answers a refused upload: status 400, with an HTML page
    /// that holds the fault's message after `File upload error: `.
    pub fn into_error(self) -> (r: ApiError)
        ensures
            r@ == ApiErrorView::html(400, "File upload error: "@ + self.message()),
    {
        let mut out: Vec<char> = Vec::new();
        extend_str(&mut out, "File upload error: ");
        extend_str(&mut out, self.describe());
        assert(out@ =~= "File upload error: "@ + self.message());
        ApiError::new_with_html(400, string_of(out.as_slice()))
    }
}

/// The error that answers an upload during which reading the request or
/// writing the file failed: status 400, with an HTML page that holds the
/// text of the failure after `File upload error: `.
pub fn upload_io_error(detail: &str) -> (r: ApiError)
    ensures
        r@ == ApiErrorView::html(400, "File upload error: "@ + detail@),
{
    let mut out: Vec<char> = Vec::new();
    extend_str(&mut out, "File upload error: ");
    extend_str(&mut out, detail);
    assert(out@ =~= "File upload error: "@ + detail@);
    ApiError::new_with_html(400, string_of(out.as_slice()))
}

/// Whether a request with this content type is an upload.
pub open spec fn is_upload(content_type: Seq<char>) -> bool {
    "multipart/form-data"@.is_prefix_of(content_type)
}

/// Whether a request with this content type is an upload.
pub fn is_multipart(content_type: &str) -> (r: bool)
    ensures
        r == is_upload(content_type@),
{
    let chars = chars_of(content_type);
    let prefix = chars_of("multipart/form-data");
    crate::text::starts_with_chars(chars.as_slice(), prefix.as_slice())
}

/// The line that separates the parts of a body with this content type: two
/// hyphens, then what follows the first `boundary=`.
pub open spec fn boundary_of(content_type: Seq<char>) -> Option<Seq<char>> {
    match find(content_type, "boundary="@) {
        Some(at) => Some("--"@ + content_type.skip(at + "boundary="@.len())),
        None => None,
    }
}

/// The file name that a `Content-Disposition` value gives: what stands
/// between the first `filename="` and the next double quote, or the end of
/// the value where no quote follows.
pub open spec fn filename_of(disposition: Seq<char>) -> Option<Seq<char>> {
    match find(disposition, "filename=\""@) {
        Some(at) => {
            let rest = disposition.skip(at + "filename=\""@.len());
            Some(rest.take(position(rest, '"')))
        },
        None => None,
    }
}

/// The number of bytes of the file in a body of `content_length` bytes:
/// what is left after the boundary line, the part's header block and six
/// bytes of line ends around the closing boundary.
pub open spec fn file_bytes(content_length: usize, boundary_bytes: nat, header_bytes: nat)
    -> Option<usize> {
    if content_length >= boundary_bytes + header_bytes + 6 {
        Some((content_length - boundary_bytes - header_bytes - 6) as usize)
    } else {
        None
    }
}

/// An upload whose part headers are being read: as a mathematical value.
pub struct UploadView {
    pub boundary: Seq<char>,
    pub header_bytes: nat,
    pub entries: Seq<(Seq<char>, Seq<char>)>,
}

/// What a line of the part's header block brings.
#[derive(Debug, Clone, Copy, PartialEq, Eq)]
pub enum PartStep {
    /// The block goes on: read another line.
    More,
    /// The line is the empty line that ends the block.
    Done,
}

impl UploadView {
    /// This upload after `count` more bytes of the header block.
    pub open spec fn counted(self, count: nat) -> UploadView {
        UploadView { header_bytes: self.header_bytes + count, ..self }
    }

    /// What `line` brings: every line counts towards the size of the block;
    /// the boundary line brings nothing more; the empty line ends the block;
    /// any other line is trimmed and split at its colons, and must give at
    /// least two fields, of which the first two, trimmed, are a header's name
    /// and value.
    pub open spec fn accept(self, line: Seq<char>) -> Result<(UploadView, PartStep), UploadFault> {
        let count = encode_utf8(line).len();
        if self.header_bytes + count > usize::MAX {
            Err(UploadFault::HeaderTooLong)
        } else if trim(line) == self.boundary {
            Ok((self.counted(count), PartStep::More))
        } else if line == "\r\n"@ {
            Ok((self.counted(count), PartStep::Done))
        } else {
            let fields = split(trim(line), ':');
            if fields.len() < 2 {
                Err(UploadFault::MalformedHeader)
            } else {
                Ok(
                    (
                        UploadView {
                            entries: self.entries.push((trim(fields[0]), trim(fields[1]))),
                            ..self.counted(count)
                        },
                        PartStep::More,
                    ),
                )
            }
        }
    }

    /// Where the file goes and how many bytes belong to it, for a request
    /// with the headers `request` on a server whose root directory is `root`.
    pub open spec fn plan(self, request: Map<Seq<char>, Seq<char>>, root: Seq<char>) -> Result<
        PlanView,
        UploadFault,
    > {
        let part = crate::text_map::map_of(self.entries);
        if !part.contains_key("Content-Disposition"@) {
            Err(UploadFault::MissingDisposition)
        } else {
            match filename_of(part["Content-Disposition"@]) {
                None => Err(UploadFault::MissingFilename),
                Some(filename) => if !request.contains_key("Path"@) {
                    Err(UploadFault::MissingPath)
                } else {
                    match upload_target(root, request["Path"@], filename) {
                        None => Err(UploadFault::OutsideRoot),
                        Some(target) => if !request.contains_key("Content-Length"@) {
                            Err(UploadFault::MissingLength)
                        } else {
                            match read_number(request["Content-Length"@]) {
                                Err(fault) => Err(UploadFault::BadLength(fault)),
                                Ok(length) => match file_bytes(
                                    length,
                                    encode_utf8(self.boundary).len(),
                                    self.header_bytes,
                                ) {
                                    None => Err(UploadFault::ShortContent),
                                    Some(bytes) => Ok(
                                        PlanView { filename, target: join(target), file_bytes: bytes },
                                    ),
                                },
                            }
                        },
                    }
                },
            }
        }
    }
}

/// Whenever an upload is planned, the file takes exactly what the content
/// holds beyond the boundary line, the part's header block and six bytes of
/// line ends; and the file lies in the root directory or below it, at a path
/// whose components are names.
pub proof fn lemma_planned_upload(
    upload: UploadView,
    request: Map<Seq<char>, Seq<char>>,
    root: Seq<char>,
)
    ensures
        upload.plan(request, root) matches Ok(plan) ==> {
            &&& request.contains_key("Content-Length"@)
            &&& read_number(request["Content-Length"@]) matches Ok(length) && plan.file_bytes
                == length - encode_utf8(upload.boundary).len() - upload.header_bytes - 6
            &&& exists|target: Seq<Seq<char>>|
                {
                    &&& plan.target == #[trigger] join(target)
                    &&& crate::paths::resolve(Seq::empty(), root).is_prefix_of(target)
                    &&& forall|i: int|
                        0 <= i < target.len() ==> crate::paths::is_name(#[trigger] target[i])
                }
        },
{
    if upload.plan(request, root) is Ok {
        let part = crate::text_map::map_of(upload.entries);
        let filename = filename_of(part["Content-Disposition"@])->0;
        crate::paths::lemma_upload_stays_under_root(root, request["Path"@], filename);
        let target = upload_target(root, request["Path"@], filename)->0;
        assert(upload.plan(request, root)->Ok_0.target == join(target));
    }
}

/// What to do with the stream once the part's header block has been read.
#[derive(Debug)]
pub struct UploadPlan {
    /// The name of the file as the client gave it.
    pub filename: String,
    /// The path of the file to create or overwrite.
    pub target: String,
    /// The number of bytes to copy from the stream into the file.
    pub file_bytes: usize,
}

/// An `UploadPlan` as a mathematical value.
pub struct PlanView {
    pub filename: Seq<char>,
    pub target: Seq<char>,
    pub file_bytes: usize,
}

impl View for UploadPlan {
    type V = PlanView;

    open spec fn view(&self) -> PlanView {
        PlanView { filename: self.filename@, target: self.target@, file_bytes: self.file_bytes }
    }
}

/// The answer to a successful upload of the file named `filename`.
pub open spec fn upload_answer(filename: Seq<char>) -> ResponseView {
    ResponseView {
        content_type: "text/plain"@,
        body: Some(BodyView::Text("File "@ + filename + " uploaded successfully."@)),
        status_code: 200,
        headers: Seq::empty(),
    }
}

impl UploadPlan {
    /// The answer to send once the file has been written.
    pub fn response(&self) -> (r: HttpResponse)
        ensures
            r@ == upload_answer(self.filename@),
    {
        let mut out: Vec<char> = Vec::new();
        extend_str(&mut out, "File ");
        extend_str(&mut out, self.filename.as_str());
        extend_str(&mut out, " uploaded successfully.");
        assert(out@ =~= "File "@ + self.filename@ + " uploaded successfully."@);
        HttpResponse::new(
            Some(Body::Text(string_of(out.as_slice()))),
            Some("text/plain".to_owned()),
            200,
        )
    }
}

/// An upload whose part headers are being read.
#[derive(Debug)]
pub struct Upload {
    boundary: String,
    header_bytes: usize,
    headers: TextMap,
}

impl View for Upload {
    type V = UploadView;

    closed spec fn view(&self) -> UploadView {
        UploadView {
            boundary: self.boundary@,
            header_bytes: self.header_bytes as nat,
            entries: self.headers.entries(),
        }
    }
}

impl Upload {
    /// An upload for a request with the given content type, of which no line
    /// has been read yet.
    pub fn begin(content_type: &str) -> (r: Result<Upload, UploadFault>)
        ensures
            match boundary_of(content_type@) {
                Some(boundary) => r matches Ok(upload) && upload@ == (UploadView {
                    boundary,
                    header_bytes: 0,
                    entries: Seq::empty(),
                }),
                None => r matches Err(UploadFault::MissingBoundary),
            },
    {
        let chars = chars_of(content_type);
        let key = chars_of("boundary=");
        match find_chars(chars.as_slice(), key.as_slice()) {
            Some(at) => {
                proof {
                    lemma_find_within(chars@, key@);
                    assert(crate::text::occurs_at(chars@, key@, at as int));
                }
                let total = chars.len();
                assert(at + key@.len() <= total);
                let token = copy_range(chars.as_slice(), at + key.len(), total);
                let mut boundary: Vec<char> = Vec::new();
                extend_str(&mut boundary, "--");
                crate::text::extend_chars(&mut boundary, token.as_slice());
                assert(boundary@ =~= "--"@ + content_type@.skip(at + "boundary="@.len()));
                Ok(
                    Upload {
                        boundary: string_of(boundary.as_slice()),
                        header_bytes: 0,
                        headers: TextMap::new(),
                    },
                )
            },
            None => Err(UploadFault::MissingBoundary),
        }
    }

    /// Takes in one line of the part's header block, as it was read from the
    /// stream. After a fault the upload is to be given up.
    pub fn accept_line(&mut self, line: &str) -> (r: Result<PartStep, UploadFault>)
        ensures
            match old(self)@.accept(line@) {
                Ok((next, step)) => r == Ok::<PartStep, UploadFault>(step) && final(self)@ == next,
                Err(fault) => r matches Err(f) && f == fault,
            },
    {
        let count = line.as_bytes().len();
        if count > usize::MAX - self.header_bytes {
            return Err(UploadFault::HeaderTooLong);
        }
        self.header_bytes = self.header_bytes + count;
        let chars = chars_of(line);
        let trimmed = trim_chars(chars.as_slice());
        let boundary = chars_of(self.boundary.as_str());
        if chars_eq(trimmed.as_slice(), boundary.as_slice()) {
            return Ok(PartStep::More);
        }
        if str_eq(line, "\r\n") {
            return Ok(PartStep::Done);
        }
        let fields = split_chars(trimmed.as_slice(), ':');
        if fields.len() < 2 {
            return Err(UploadFault::MalformedHeader);
        }
        assert(texts(fields@)[0] == fields@[0]@);
        assert(texts(fields@)[1] == fields@[1]@);
        let name = trim_chars(fields[0].as_slice());
        let value = trim_chars(fields[1].as_slice());
        self.headers.insert(string_of(name.as_slice()), string_of(value.as_slice()));
        Ok(PartStep::More)
    }

    /// Where the file goes and how many bytes of the stream belong to it, for
    /// a request with the headers `request` on a server whose root directory
    /// is `root`.
    pub fn plan(&self, request: &TextMap, root: &str) -> (r: Result<UploadPlan, UploadFault>)
        ensures
            match self@.plan(request@, root@) {
                Ok(plan) => r matches Ok(p) && p@ == plan,
                Err(fault) => r matches Err(f) && f == fault,
            },
    {
        proof {
            self.headers.lemma_view();
        }
        let disposition = match self.headers.get("Content-Disposition") {
            Some(value) => chars_of(value.as_str()),
            None => {
                return Err(UploadFault::MissingDisposition);
            },
        };
        let key = chars_of("filename=\"");
        let filename = match find_chars(disposition.as_slice(), key.as_slice()) {
            Some(at) => {
                proof {
                    lemma_find_within(disposition@, key@);
                    assert(crate::text::occurs_at(disposition@, key@, at as int));
                }
                let total = disposition.len();
                assert(at + key@.len() <= total);
                let rest = copy_range(disposition.as_slice(), at + key.len(), total);
                let end = find_char(rest.as_slice(), '"');
                proof {
                    lemma_position(rest@, '"');
                }
                let name = copy_range(rest.as_slice(), 0, end);
                assert(name@ =~= rest@.take(end as int));
                string_of(name.as_slice())
            },
            None => {
                return Err(UploadFault::MissingFilename);
            },
        };
        let path = match request.get("Path") {
            Some(path) => path,
            None => {
                return Err(UploadFault::MissingPath);
            },
        };
        let target = match upload_path(root, path.as_str(), filename.as_str()) {
            Some(target) => target,
            None => {
                return Err(UploadFault::OutsideRoot);
            },
        };
        let length = match request.get("Content-Length") {
            Some(value) => {
                let chars = chars_of(value.as_str());
                match read_usize(chars.as_slice()) {
                    Ok(length) => length,
                    Err(fault) => {
                        return Err(UploadFault::BadLength(fault));
                    },
                }
            },
            None => {
                return Err(UploadFault::MissingLength);
            },
        };
        let boundary_bytes = self.boundary.as_str().as_bytes().len();
        if length < boundary_bytes || length - boundary_bytes < self.header_bytes || length
            - boundary_bytes - self.header_bytes < 6 {
            return Err(UploadFault::ShortContent);
        }
        Ok(
            UploadPlan {
                filename,
                target,
                file_bytes: length - boundary_bytes - self.header_bytes - 6,
            },
        )
    }
}

} // verus!
