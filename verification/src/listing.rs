//! The directory listing: what is on the way to a directory and what is in
//! it, as a JSON document.
//!
//! Reading the directory is the caller's part. The listing is built from the
//! entries that were read.
use crate::api::{breadcrumbs, decode_path, path_upto, way, within_root, PathParts};
use crate::encoding::{json_quote, json_string, percent_decoded};
use crate::errors::api_error::{ApiError, ApiErrorView};
use crate::http_response::{Body, BodyView, HttpResponse, ResponseView};
use crate::paths::resolve;
use crate::text::{extend_chars, extend_str, string_of};
use vstd::prelude::*;

verus! {

/// An entry of a directory, as it is listed.
#[derive(Debug)]
pub struct Files {
    /// The path of the entry from the root directory.
    pub path: String,
    /// The name of the entry.
    pub name: String,
    /// Whether the entry is a directory.
    pub is_directory: bool,
    /// When the entry was last modified.
    pub last_modified: String,
    /// The size of the entry, for a reader.
    pub size: String,
}

/// A `Files` as a mathematical value.
pub struct FilesView {
    pub path: Seq<char>,
    pub name: Seq<char>,
    pub is_directory: bool,
    pub last_modified: Seq<char>,
    pub size: Seq<char>,
}

impl View for Files {
    type V = FilesView;

    open spec fn view(&self) -> FilesView {
        FilesView {
            path: self.path@,
            name: self.name@,
            is_directory: self.is_directory,
            last_modified: self.last_modified@,
            size: self.size@,
        }
    }
}

/// The views of the entries of `files`, in order.
pub open spec fn files_view(files: Seq<Files>) -> Seq<FilesView> {
    Seq::new(files.len(), |i: int| files[i]@)
}

/// The JSON object for one entry, its members in alphabetical order, each
/// value given as a JSON string.
pub open spec fn file_object(
    file_type: Seq<char>,
    last_modified: Seq<char>,
    name: Seq<char>,
    path: Seq<char>,
    size: Seq<char>,
) -> Seq<char> {
    "{\"file_type\":"@ + file_type + ",\"last_modified\":"@ + last_modified + ",\"name\":"@ + name
        + ",\"path\":"@ + path + ",\"size\":"@ + size + "}"@
}

/// The JSON object for one step on the way, its members in alphabetical
/// order, each value given as a JSON string.
pub open spec fn part_object(full_path: Seq<char>, part_name: Seq<char>) -> Seq<char> {
    "{\"full_path\":"@ + full_path + ",\"part_name\":"@ + part_name + "}"@
}

/// The JSON object for one entry.
pub open spec fn file_document(file: FilesView) -> Seq<char> {
    file_object(
        json_string(
            if file.is_directory {
                "Directory"@
            } else {
                "File"@
            },
        ),
        json_string(file.last_modified),
        json_string(file.name),
        json_string(file.path),
        json_string(file.size),
    )
}

/// The JSON object for one step on the way.
pub open spec fn part_document(part_name: Seq<char>, full_path: Seq<char>) -> Seq<char> {
    part_object(json_string(full_path), json_string(part_name))
}

/// The first `upto` of `items`, with commas between them.
pub open spec fn separated(items: Seq<Seq<char>>, upto: int) -> Seq<char>
    decreases upto,
{
    if upto <= 0 {
        Seq::empty()
    } else if upto == 1 {
        items[0]
    } else {
        separated(items, upto - 1) + ","@ + items[upto - 1]
    }
}

/// The JSON array of `items`.
pub open spec fn array(items: Seq<Seq<char>>) -> Seq<char> {
    "["@ + separated(items, items.len() as int) + "]"@
}

/// The JSON objects for the steps on the way to the directory that `path`
/// names.
pub open spec fn part_documents(path: Seq<char>) -> Seq<Seq<char>> {
    Seq::new(
        way(path).len(),
        |i: int| part_document(way(path)[i], path_upto(way(path), i + 1)),
    )
}

/// The JSON objects for `files`.
pub open spec fn file_documents(files: Seq<FilesView>) -> Seq<Seq<char>> {
    Seq::new(files.len(), |i: int| file_document(files[i]))
}

/// The listing of the directory that `path` names, which holds `files`: the
/// entries under `files`, the steps on the way under `paths`.
pub open spec fn listing_document(path: Seq<char>, files: Seq<FilesView>) -> Seq<char> {
    "{\"files\":"@ + array(file_documents(files)) + ",\"paths\":"@ + array(part_documents(path))
        + "}"@
}

/// The response that carries the listing `document`.
pub open spec fn listing_response(document: Seq<char>) -> ResponseView {
    ResponseView {
        content_type: "application/json"@,
        body: Some(BodyView::Json(document)),
        status_code: 200,
        headers: Seq::empty(),
    }
}

/// The JSON object for one entry, each value given as a JSON string.
pub fn file_object_chars(
    file_type: &str,
    last_modified: &str,
    name: &str,
    path: &str,
    size: &str,
) -> (r: Vec<char>)
    ensures
        r@ == file_object(file_type@, last_modified@, name@, path@, size@),
{
    let mut out: Vec<char> = Vec::new();
    extend_str(&mut out, "{\"file_type\":");
    extend_str(&mut out, file_type);
    extend_str(&mut out, ",\"last_modified\":");
    extend_str(&mut out, last_modified);
    extend_str(&mut out, ",\"name\":");
    extend_str(&mut out, name);
    extend_str(&mut out, ",\"path\":");
    extend_str(&mut out, path);
    extend_str(&mut out, ",\"size\":");
    extend_str(&mut out, size);
    extend_str(&mut out, "}");
    assert(out@ =~= file_object(file_type@, last_modified@, name@, path@, size@));
    out
}

/// The JSON object for one step on the way, each value given as a JSON
/// string.
pub fn part_object_chars(full_path: &str, part_name: &str) -> (r: Vec<char>)
    ensures
        r@ == part_object(full_path@, part_name@),
{
    let mut out: Vec<char> = Vec::new();
    extend_str(&mut out, "{\"full_path\":");
    extend_str(&mut out, full_path);
    extend_str(&mut out, ",\"part_name\":");
    extend_str(&mut out, part_name);
    extend_str(&mut out, "}");
    assert(out@ =~= part_object(full_path@, part_name@));
    out
}

/// The JSON object for one entry.
fn file_json(file: &Files) -> (r: Vec<char>)
    ensures
        r@ == file_document(file@),
{
    let file_type = if file.is_directory {
        json_quote("Directory")
    } else {
        json_quote("File")
    };
    let last_modified = json_quote(file.last_modified.as_str());
    let name = json_quote(file.name.as_str());
    let path = json_quote(file.path.as_str());
    let size = json_quote(file.size.as_str());
    file_object_chars(
        file_type.as_str(),
        last_modified.as_str(),
        name.as_str(),
        path.as_str(),
        size.as_str(),
    )
}

/// The JSON object for one step on the way.
fn part_json(part: &PathParts) -> (r: Vec<char>)
    ensures
        r@ == part_document(part.part_name@, part.full_path@),
{
    let full_path = json_quote(part.full_path.as_str());
    let part_name = json_quote(part.part_name.as_str());
    part_object_chars(full_path.as_str(), part_name.as_str())
}

/// Appends one more item of an array that holds `count` items so far.
fn push_item(out: &mut Vec<char>, item: &Vec<char>, count: usize, Ghost(items): Ghost<
    Seq<Seq<char>>,
>, Ghost(start): Ghost<Seq<char>>)
    requires
        count < items.len(),
        items[count as int] == item@,
        old(out)@ == start + separated(items, count as int),
    ensures
        final(out)@ == start + separated(items, count + 1),
{
    if count > 0 {
        extend_str(out, ",");
    }
    extend_chars(out, item.as_slice());
    proof {
        if count > 0 {
            assert(final(out)@ =~= start + (separated(items, count as int) + ","@ + item@));
        } else {
            assert(separated(items, 0) =~= Seq::empty());
            assert(final(out)@ =~= start + item@);
        }
    }
}

/// The listing of the directory that `path` names, which holds `files`.
pub fn listing_json(path: &str, files: &Vec<Files>) -> (r: String)
    ensures
        r@ == listing_document(path@, files_view(files@)),
{
    let parts = breadcrumbs(path);
    let ghost file_items = file_documents(files_view(files@));
    let ghost part_items = part_documents(path@);
    let mut out: Vec<char> = Vec::new();
    extend_str(&mut out, "{\"files\":");
    extend_str(&mut out, "[");
    let ghost first = out@;
    assert(first =~= "{\"files\":"@ + "["@);
    let mut i: usize = 0;
    assert(first + separated(file_items, 0) =~= first);
    while i < files.len()
        invariant
            i <= files@.len(),
            file_items == file_documents(files_view(files@)),
            out@ == first + separated(file_items, i as int),
        decreases files@.len() - i,
    {
        let item = file_json(&files[i]);
        assert(file_items[i as int] == item@);
        push_item(&mut out, &item, i, Ghost(file_items), Ghost(first));
        i += 1;
    }
    extend_str(&mut out, "]");
    extend_str(&mut out, ",\"paths\":");
    extend_str(&mut out, "[");
    let ghost second = out@;
    assert(second =~= "{\"files\":"@ + array(file_items) + ",\"paths\":"@ + "["@);
    let mut k: usize = 0;
    assert(second + separated(part_items, 0) =~= second);
    while k < parts.len()
        invariant
            k <= parts@.len(),
            parts@.len() == way(path@).len(),
            part_items == part_documents(path@),
            forall|j: int|
                0 <= j < parts@.len() ==> (#[trigger] parts@[j]).part_name@ == way(path@)[j]
                    && parts@[j].full_path@ == path_upto(way(path@), j + 1),
            out@ == second + separated(part_items, k as int),
        decreases parts@.len() - k,
    {
        let item = part_json(&parts[k]);
        assert(part_items[k as int] == item@);
        push_item(&mut out, &item, k, Ghost(part_items), Ghost(second));
        k += 1;
    }
    extend_str(&mut out, "]");
    extend_str(&mut out, "}");
    assert(out@ =~= listing_document(path@, files_view(files@)));
    string_of(out.as_slice())
}

/// Lists a directory.
///
/// `path` is the request's parameter, percent-encoded; `root` is the
/// server's root directory and `target` the directory that was read, both as
/// canonical paths; `files` is what the directory holds. A directory that is
/// neither the root nor below it is refused with status 400.
pub fn list_directory(path: &str, root: &str, target: &str, files: &Vec<Files>) -> (r: Result<
    HttpResponse,
    ApiError,
>)
    ensures
        resolve(Seq::empty(), root@).is_prefix_of(resolve(Seq::empty(), target@)) ==> (r matches Ok(
            response,
        ) && response@ == listing_response(
            listing_document(percent_decoded(path@), files_view(files@)),
        )),
        !resolve(Seq::empty(), root@).is_prefix_of(resolve(Seq::empty(), target@)) ==> (r matches Err(
            e,
        ) && e@ == ApiErrorView::json(
            400,
            "Only paths relative to the current directory are allowed"@,
        )),
{
    if !within_root(root, target) {
        return Err(
            ApiError::new_with_json(
                400,
                "Only paths relative to the current directory are allowed".to_owned(),
            ),
        );
    }
    let decoded = decode_path(path);
    let document = listing_json(decoded.as_str(), files);
    Ok(HttpResponse::new(Some(Body::Json(document)), None, 200))
}

} // verus!
