//! The routes that the server offers by default, and what their handlers
//! compute.
//!
//! Handlers that read files or directories are run by the caller: the
//! functions here take what was read and build the response.
use crate::encoding::{percent_decode, percent_decoded};
use crate::errors::api_error::{text_view, ApiError, ApiErrorView};
use crate::http_response::{Body, BodyView, FileSource, FileView, HttpResponse, ResponseView};
use crate::mime::{guess_or_binary, guess_or_text, media_type_or_binary, media_type_or_text};
use crate::paths::{is_under, resolve, resolve_chars};
use crate::pattern::regex_compiles;
use crate::router::{route_pattern, HttpMethod, RouteView, Router, RouterView};
use crate::static_files::StaticFiles;
use crate::text::{chars_eq, chars_of, extend_chars, string_of};
use crate::text_map::TextMap;
use crate::tokens::{split, split_chars, texts};
use vstd::prelude::*;

verus! {

/// What a route of the default set does.
#[derive(Debug)]
pub enum Endpoint {
    /// Serves the built-in asset that the parameter `file` names.
    Asset,
    /// Streams the file that the parameter `path` names as a download.
    Download,
    /// Lists the directory that the parameter `path` names.
    Listing,
    /// Serves the built-in `index.html`.
    Index,
    /// Serves the file at this path as the index page.
    CustomIndex(String),
}

/// The routes of the default set, as paths with what they do; every one of
/// them answers `GET`.
pub open spec fn default_paths(index_path: Option<Seq<char>>) -> Seq<Seq<char>> {
    match index_path {
        Some(_) => seq!["/"@],
        None => seq!["/static/{file}?"@, "/api/files"@, "/api/directory"@, "/*"@],
    }
}

/// The routes that `create_routes` registers, in order.
pub open spec fn default_table(authorize: bool, index_path: Option<Seq<char>>) -> Seq<RouteView> {
    Seq::new(
        default_paths(index_path).len(),
        |i: int|
            RouteView {
                pattern: route_pattern(default_paths(index_path)[i]),
                method: HttpMethod::GET,
                authorize,
            },
    )
}

/// Whether `regex` accepts the expressions of all the default routes.
pub open spec fn default_paths_compile(index_path: Option<Seq<char>>) -> bool {
    forall|i: int|
        0 <= i < default_paths(index_path).len() ==> regex_compiles(
            route_pattern(#[trigger] default_paths(index_path)[i]),
        )
}

/// What the routes of the default set do, in order.
pub open spec fn default_endpoints(index_path: Option<String>) -> Seq<Endpoint> {
    match index_path {
        Some(path) => seq![Endpoint::CustomIndex(path)],
        None => seq![Endpoint::Asset, Endpoint::Download, Endpoint::Listing, Endpoint::Index],
    }
}

/// `router` with the default routes after its own: the single route `/` for
/// a custom index page where `index_path` is given; otherwise the assets,
/// the download, the directory listing, and the catch-all that serves the
/// built-in index page. `None` where `regex` refuses one of the expressions.
pub fn create_routes(router: Router<Endpoint>, authorize: bool, index_path: Option<String>) -> (r:
    Option<Router<Endpoint>>)
    ensures
        r is Some <==> default_paths_compile(text_view(index_path)),
        r matches Some(routed) ==> routed@ == (RouterView {
            routes: router@.routes + default_table(authorize, text_view(index_path)),
            ..router@
        }) && routed.handlers() == router.handlers() + default_endpoints(index_path),
{
    let mut routed = router;
    let ghost paths = default_paths(text_view(index_path));
    match index_path {
        Some(path) => {
            assert(paths[0] == "/"@);
            if routed.try_add_route(
                "/",
                HttpMethod::GET,
                Endpoint::CustomIndex(path),
                authorize,
            ).is_err() {
                return None;
            }
        },
        None => {
            assert(paths[0] == "/static/{file}?"@);
            assert(paths[1] == "/api/files"@);
            assert(paths[2] == "/api/directory"@);
            assert(paths[3] == "/*"@);
            if routed.try_add_route(
                "/static/{file}?",
                HttpMethod::GET,
                Endpoint::Asset,
                authorize,
            ).is_err() {
                return None;
            }
            if routed.try_add_route(
                "/api/files",
                HttpMethod::GET,
                Endpoint::Download,
                authorize,
            ).is_err() {
                return None;
            }
            if routed.try_add_route(
                "/api/directory",
                HttpMethod::GET,
                Endpoint::Listing,
                authorize,
            ).is_err() {
                return None;
            }
            if routed.try_add_route("/*", HttpMethod::GET, Endpoint::Index, authorize).is_err() {
                return None;
            }
        },
    }
    proof {
        assert(routed@.routes =~= router@.routes + default_table(
            authorize,
            text_view(index_path),
        ));
        assert(routed.handlers() =~= router.handlers() + default_endpoints(index_path));
    }
    Some(routed)
}

/// The name of the asset that a request asks for: the parameter `file`, or
/// `index.html` without it.
pub open spec fn asset_name(params: Map<Seq<char>, Seq<char>>) -> Seq<char> {
    if params.contains_key("file"@) {
        params["file"@]
    } else {
        "index.html"@
    }
}

/// The response that serves the asset `name` with the content `bytes` as
/// `content_type`, to be cached for a year.
pub open spec fn asset_as(name: Seq<char>, bytes: Seq<u8>, content_type: Seq<char>)
    -> ResponseView {
    ResponseView {
        content_type,
        body: Some(BodyView::StaticFile(bytes, name)),
        status_code: 200,
        headers: seq![("Cache-Control"@, "public, max-age=31536000"@)],
    }
}

/// The response that serves the asset `name` with the content `bytes`, as
/// the media type that its name suggests.
pub open spec fn asset_response(name: Seq<char>, bytes: Seq<u8>) -> ResponseView {
    asset_as(name, bytes, media_type_or_text(name))
}

/// The response that serves the asset `name` with the content `bytes` as
/// `content_type`.
pub fn serve_asset(name: String, bytes: &'static [u8], content_type: String) -> (r: HttpResponse)
    ensures
        r@ == asset_as(name@, bytes@, content_type@),
{
    let response = HttpResponse::new(Some(Body::StaticFile(bytes, name)), Some(content_type), 200);
    let response = response.add_response_header("Cache-Control", "public, max-age=31536000");
    assert(response@.headers =~= seq![("Cache-Control"@, "public, max-age=31536000"@)]);
    response
}

/// The response that serves the built-in index page with the content
/// `bytes`.
pub open spec fn index_response(bytes: Seq<u8>) -> ResponseView {
    ResponseView {
        content_type: "text/html"@,
        body: Some(BodyView::StaticFile(bytes, "index.html"@)),
        status_code: 200,
        headers: Seq::empty(),
    }
}

/// Serves a built-in asset: the one that the parameter `file` names, or
/// `index.html`. An asset that the bundle does not hold is answered with
/// status 404.
pub fn static_asset(files: &StaticFiles, params: &TextMap) -> (r: Result<HttpResponse, ApiError>)
    ensures
        files@.contains_key(asset_name(params@)) ==> (r matches Ok(response) && response@
            == asset_response(asset_name(params@), files@[asset_name(params@)])),
        !files@.contains_key(asset_name(params@)) ==> (r matches Err(e) && e@
            == ApiErrorView::html(404, "File not found"@)),
{
    let name: String = match params.get("file") {
        Some(file) => file.clone(),
        None => "index.html".to_owned(),
    };
    match files.get(name.as_str()) {
        Ok(bytes) => {
            let content_type = guess_or_text(name.as_str());
            Ok(serve_asset(name, bytes, content_type))
        },
        Err(_) => Err(ApiError::new_with_html(404, "File not found".to_owned())),
    }
}

/// Serves the built-in index page. A bundle without `index.html` is
/// answered with status 404.
pub fn index_page(files: &StaticFiles) -> (r: Result<HttpResponse, ApiError>)
    ensures
        files@.contains_key("index.html"@) ==> (r matches Ok(response) && response@
            == index_response(files@["index.html"@])),
        !files@.contains_key("index.html"@) ==> (r matches Err(e) && e@ == ApiErrorView::html(
            404,
            "File not found"@,
        )),
{
    match files.get("index.html") {
        Ok(bytes) => Ok(
            HttpResponse::new(
                Some(Body::StaticFile(bytes, "index.html".to_owned())),
                Some("text/html".to_owned()),
                200,
            ),
        ),
        Err(_) => Err(ApiError::new_with_html(404, "File not found".to_owned())),
    }
}

/// The response that serves `text` as a custom index page.
pub fn custom_index_page(text: String) -> (r: HttpResponse)
    ensures
        r@ == custom_index_answer(text@),
{
    HttpResponse::new(Some(Body::Text(text)), Some("text/html".to_owned()), 200)
}

/// The last of the first `upto` components that is neither empty nor `.`,
/// unless it is `..`.
pub open spec fn last_name(components: Seq<Seq<char>>, upto: int) -> Option<Seq<char>>
    decreases upto,
{
    if upto <= 0 {
        None
    } else {
        let c = components[upto - 1];
        if c.len() == 0 || c == "."@ {
            last_name(components, upto - 1)
        } else if c == ".."@ {
            None
        } else {
            Some(c)
        }
    }
}

/// The name of the file that `path` leads to: its last component, where that
/// is a name.
pub open spec fn file_name_of(path: Seq<char>) -> Option<Seq<char>> {
    last_name(split(path, '/'), split(path, '/').len() as int)
}

/// The name of the file that `path` leads to.
pub fn file_name(path: &str) -> (r: Option<String>)
    ensures
        match file_name_of(path@) {
            Some(name) => r matches Some(s) && s@ == name,
            None => r is None,
        },
{
    let chars = chars_of(path);
    let components = split_chars(chars.as_slice(), '/');
    let dot = chars_of(".");
    let dots = chars_of("..");
    let ghost all = texts(components@);
    let mut i: usize = components.len();
    while i > 0
        invariant
            i <= components@.len(),
            all == texts(components@),
            all == split(path@, '/'),
            dot@ == "."@,
            dots@ == ".."@,
            file_name_of(path@) == last_name(all, i as int),
        decreases i,
    {
        i -= 1;
        let c = &components[i];
        assert(all[i as int] == c@);
        if c.len() == 0 || chars_eq(c.as_slice(), dot.as_slice()) {
        } else if chars_eq(c.as_slice(), dots.as_slice()) {
            return None;
        } else {
            return Some(string_of(c.as_slice()));
        }
    }
    None
}

/// What a download asks for: the file to open, the name to offer, and the
/// content type to announce.
#[derive(Debug)]
pub struct Download {
    pub path: String,
    pub file_name: String,
    pub content_type: String,
}

/// What the parameters of a download request ask for. Without the parameter
/// `path` the request fails with `Missing path parameter`; with a path that
/// leads to no file name it fails with `No file name`; both under status
/// 500.
pub fn download_request(params: &TextMap) -> (r: Result<Download, ApiError>)
    ensures
        !params@.contains_key("path"@) ==> (r matches Err(e) && e@ == ApiErrorView::json(
            500,
            "Missing path parameter"@,
        )),
        params@.contains_key("path"@) ==> match file_name_of(params@["path"@]) {
            None => r matches Err(e) && e@ == ApiErrorView::json(500, "No file name"@),
            Some(name) => r matches Ok(d) && d.path@ == params@["path"@] && d.file_name@ == name
                && d.content_type@ == media_type_or_binary(name),
        },
{
    let path = match params.get("path") {
        Some(path) => path,
        None => {
            return Err(ApiError::from_message("Missing path parameter"));
        },
    };
    let name = match file_name(path.as_str()) {
        Some(name) => name,
        None => {
            return Err(ApiError::from_message("No file name"));
        },
    };
    let content_type = guess_or_binary(name.as_str());
    Ok(Download { path: path.clone(), file_name: name, content_type })
}

/// The response that streams the file of `size` bytes that a download asks
/// for.
pub fn download_response(download: Download, size: u64) -> (r: HttpResponse)
    ensures
        r@ == download_answer(download@, size),
{
    let Download { path, file_name, content_type } = download;
    HttpResponse::new(
        Some(Body::Attachment(FileSource { path, size }, file_name)),
        Some(content_type),
        200,
    )
}

/// The index file to serve, where it exists; `exists` says whether a file is
/// there.
pub fn parse_index_path(path: &str, exists: bool) -> (r: Result<String, String>)
    ensures
        exists ==> (r matches Ok(p) && p@ == path@),
        !exists ==> (r matches Err(m) && m@ == "Index file not found"@),
{
    if exists {
        Ok(path.to_owned())
    } else {
        Err("Index file not found".to_owned())
    }
}

/// One step on the way to a directory: its name, and the path up to and
/// including it.
#[derive(Debug)]
pub struct PathParts {
    pub part_name: String,
    pub full_path: String,
}

/// The names on the way to the directory that `path` names from the current
/// directory: `.` first, or `/` where `path` begins with `/`; then every
/// component of `path` that is neither empty nor `.`.
pub open spec fn way(path: Seq<char>) -> Seq<Seq<char>> {
    let first = if path.len() > 0 && path[0] == '/' {
        "/"@
    } else {
        "."@
    };
    seq![first] + way_names(split(path, '/'), split(path, '/').len() as int)
}

/// The first `upto` components that are neither empty nor `.`.
pub open spec fn way_names(components: Seq<Seq<char>>, upto: int) -> Seq<Seq<char>>
    decreases upto,
{
    if upto <= 0 {
        Seq::empty()
    } else {
        let c = components[upto - 1];
        if c.len() == 0 || c == "."@ {
            way_names(components, upto - 1)
        } else {
            way_names(components, upto - 1).push(c)
        }
    }
}

/// The path up to and including the first `upto` of `names`: each name
/// followed by `/`.
pub open spec fn path_upto(names: Seq<Seq<char>>, upto: int) -> Seq<char>
    decreases upto,
{
    if upto <= 0 {
        Seq::empty()
    } else {
        path_upto(names, upto - 1) + names[upto - 1] + "/"@
    }
}

/// The text that a percent-encoded path stands for.
pub fn decode_path(path: &str) -> (r: String)
    ensures
        r@ == percent_decoded(path@),
{
    percent_decode(path)
}

/// The steps on the way to the directory that `path` names, each with the
/// path up to it.
pub fn breadcrumbs(path: &str) -> (r: Vec<PathParts>)
    ensures
        r@.len() == way(path@).len(),
        forall|i: int|
            0 <= i < r@.len() ==> (#[trigger] r@[i]).part_name@ == way(path@)[i] && r@[i].full_path@
                == path_upto(way(path@), i + 1),
{
    let chars = chars_of(path);
    let components = split_chars(chars.as_slice(), '/');
    let ghost all = texts(components@);
    let dot = chars_of(".");
    let mut names: Vec<Vec<char>> = Vec::new();
    if chars.len() > 0 && chars[0] == '/' {
        names.push(chars_of("/"));
    } else {
        names.push(chars_of("."));
    }
    let ghost first = names@[0]@;
    assert(texts(names@) =~= seq![first] + way_names(all, 0));
    let mut i: usize = 0;
    while i < components.len()
        invariant
            i <= components@.len(),
            all == texts(components@),
            dot@ == "."@,
            texts(names@) == seq![first] + way_names(all, i as int),
        decreases components@.len() - i,
    {
        let c = &components[i];
        assert(all[i as int] == c@);
        if c.len() == 0 || chars_eq(c.as_slice(), dot.as_slice()) {
        } else {
            proof {
                crate::tokens::lemma_texts_push(names@, *c);
            }
            names.push(c.clone());
            assert(texts(names@) =~= seq![first] + way_names(all, i + 1));
        }
        i += 1;
    }
    let ghost whole = texts(names@);
    assert(whole == way(path@));
    let mut r: Vec<PathParts> = Vec::new();
    let mut so_far: Vec<char> = Vec::new();
    let mut k: usize = 0;
    while k < names.len()
        invariant
            k <= names@.len(),
            whole == texts(names@),
            r@.len() == k,
            so_far@ == path_upto(whole, k as int),
            forall|j: int|
                0 <= j < k ==> (#[trigger] r@[j]).part_name@ == whole[j] && r@[j].full_path@
                    == path_upto(whole, j + 1),
        decreases names@.len() - k,
    {
        assert(whole[k as int] == names@[k as int]@);
        let ghost before = so_far@;
        extend_chars(&mut so_far, names[k].as_slice());
        so_far.push('/');
        proof {
            reveal_strlit("/");
            assert(so_far@ =~= before + names@[k as int]@ + "/"@);
        }
        r.push(
            PathParts {
                part_name: string_of(names[k].as_slice()),
                full_path: string_of(so_far.as_slice()),
            },
        );
        k += 1;
    }
    r
}

/// Whether the directory at `target` is the directory at `root` or lies
/// below it. Both are paths from the top; they are compared component by
/// component.
pub fn within_root(root: &str, target: &str) -> (r: bool)
    ensures
        r == resolve(Seq::empty(), root@).is_prefix_of(resolve(Seq::empty(), target@)),
{
    let root_chars = chars_of(root);
    let target_chars = chars_of(target);
    let top: Vec<Vec<char>> = Vec::new();
    assert(texts(top@) =~= Seq::empty());
    let base = resolve_chars(top, root_chars.as_slice());
    let other: Vec<Vec<char>> = Vec::new();
    assert(texts(other@) =~= Seq::empty());
    let place = resolve_chars(other, target_chars.as_slice());
    is_under(&base, &place)
}

/// A `Download` as a mathematical value.
pub struct DownloadView {
    pub path: Seq<char>,
    pub file_name: Seq<char>,
    pub content_type: Seq<char>,
}

impl View for Download {
    type V = DownloadView;

    open spec fn view(&self) -> DownloadView {
        DownloadView {
            path: self.path@,
            file_name: self.file_name@,
            content_type: self.content_type@,
        }
    }
}

/// Why reading a file or a directory failed, as far as the answer depends on
/// it: whether something was not found, and the text of the failure.
#[derive(Debug)]
pub struct Failure {
    pub not_found: bool,
    pub detail: String,
}

/// The error that answers a failed read: 404 where something was not found,
/// 500 otherwise, with an HTML page that holds `detail` after `IO Error: `.
pub open spec fn failure_error(not_found: bool, detail: Seq<char>) -> ApiErrorView {
    ApiErrorView::html(
        if not_found {
            404
        } else {
            500
        },
        "IO Error: "@ + detail,
    )
}

impl Failure {
    /// The error that answers this failure.
    pub fn into_error(self) -> (r: ApiError)
        ensures
            r@ == failure_error(self.not_found, self.detail@),
    {
        ApiError::from_io(self.not_found, self.detail.as_str())
    }
}

/// What the asset route answers.
pub open spec fn asset_outcome(
    files: Map<Seq<char>, Seq<u8>>,
    params: Map<Seq<char>, Seq<char>>,
) -> Result<ResponseView, ApiErrorView> {
    if files.contains_key(asset_name(params)) {
        Ok(asset_response(asset_name(params), files[asset_name(params)]))
    } else {
        Err(ApiErrorView::html(404, "File not found"@))
    }
}

/// What the catch-all route answers.
pub open spec fn index_outcome(files: Map<Seq<char>, Seq<u8>>) -> Result<
    ResponseView,
    ApiErrorView,
> {
    if files.contains_key("index.html"@) {
        Ok(index_response(files["index.html"@]))
    } else {
        Err(ApiErrorView::html(404, "File not found"@))
    }
}

/// What a download request asks for, or the error that answers it.
pub open spec fn download_plan(params: Map<Seq<char>, Seq<char>>) -> Result<
    DownloadView,
    ApiErrorView,
> {
    if params.contains_key("path"@) {
        match file_name_of(params["path"@]) {
            Some(name) => Ok(
                DownloadView {
                    path: params["path"@],
                    file_name: name,
                    content_type: media_type_or_binary(name),
                },
            ),
            None => Err(ApiErrorView::json(500, "No file name"@)),
        }
    } else {
        Err(ApiErrorView::json(500, "Missing path parameter"@))
    }
}

/// The response that streams the file of `size` bytes that `download` asks
/// for.
pub open spec fn download_answer(download: DownloadView, size: u64) -> ResponseView {
    ResponseView {
        content_type: download.content_type,
        body: Some(
            BodyView::Attachment(FileView { path: download.path, size }, download.file_name),
        ),
        status_code: 200,
        headers: Seq::empty(),
    }
}

/// The response that serves `text` as a custom index page.
pub open spec fn custom_index_answer(text: Seq<char>) -> ResponseView {
    ResponseView {
        content_type: "text/html"@,
        body: Some(BodyView::Text(text)),
        status_code: 200,
        headers: Seq::empty(),
    }
}

/// What a route of the default set comes to before anything is read from
/// disk.
#[derive(Debug)]
pub enum Served {
    /// The route has answered.
    Answer(Result<HttpResponse, ApiError>),
    /// Look up the size of the file that the download asks for; then
    /// `stat_answer`.
    Stat(Download),
    /// Read the directory that this parameter names; then `list_answer`.
    List(String),
    /// Read the file at this path; then `read_answer`.
    Read(String),
}

/// A `Served` as a mathematical value.
pub enum ServedView {
    Answer(Result<ResponseView, ApiErrorView>),
    Stat(DownloadView),
    List(Seq<char>),
    Read(Seq<char>),
}

impl View for Served {
    type V = ServedView;

    open spec fn view(&self) -> ServedView {
        match self {
            Served::Answer(outcome) => ServedView::Answer(crate::router::outcome_view(*outcome)),
            Served::Stat(download) => ServedView::Stat(download@),
            Served::List(path) => ServedView::List(path@),
            Served::Read(path) => ServedView::Read(path@),
        }
    }
}

/// What a route of the default set comes to for a request with the
/// parameters `params`, with the built-in assets `files`.
///
/// The asset route and the catch-all answer from the assets. The download
/// asks for the size of its file, unless the parameter `path` is missing or
/// names no file. The listing asks for its directory to be read, unless the
/// parameter `path` is missing. The custom index page asks for its file to
/// be read.
pub open spec fn served(
    endpoint: Endpoint,
    files: Map<Seq<char>, Seq<u8>>,
    params: Map<Seq<char>, Seq<char>>,
) -> ServedView {
    match endpoint {
        Endpoint::Asset => ServedView::Answer(asset_outcome(files, params)),
        Endpoint::Index => ServedView::Answer(index_outcome(files)),
        Endpoint::Download => match download_plan(params) {
            Ok(download) => ServedView::Stat(download),
            Err(error) => ServedView::Answer(Err(error)),
        },
        Endpoint::Listing => if params.contains_key("path"@) {
            ServedView::List(params["path"@])
        } else {
            ServedView::Answer(Err(ApiErrorView::json(500, "Missing path parameter"@)))
        },
        Endpoint::CustomIndex(path) => ServedView::Read(path@),
    }
}

/// Runs the handler of a route of the default set as far as it goes without
/// reading from disk.
pub fn serve(endpoint: &Endpoint, files: &StaticFiles, params: &TextMap) -> (r: Served)
    ensures
        r@ == served(*endpoint, files@, params@),
{
    match endpoint {
        Endpoint::Asset => Served::Answer(static_asset(files, params)),
        Endpoint::Index => Served::Answer(index_page(files)),
        Endpoint::Download => match download_request(params) {
            Ok(download) => Served::Stat(download),
            Err(error) => Served::Answer(Err(error)),
        },
        Endpoint::Listing => match params.get("path") {
            Some(path) => Served::List(path.clone()),
            None => Served::Answer(Err(ApiError::from_message("Missing path parameter"))),
        },
        Endpoint::CustomIndex(path) => Served::Read(path.clone()),
    }
}

/// What a download comes to once the size of its file has been looked up:
/// the file as an attachment, or the error that answers the failure.
pub open spec fn stat_outcome(download: DownloadView, stat: Result<u64, Failure>) -> Result<
    ResponseView,
    ApiErrorView,
> {
    match stat {
        Ok(size) => Ok(download_answer(download, size)),
        Err(failure) => Err(failure_error(failure.not_found, failure.detail@)),
    }
}

/// What a download comes to once the size of its file has been looked up.
pub fn stat_answer(download: Download, stat: Result<u64, Failure>) -> (r: Result<
    HttpResponse,
    ApiError,
>)
    ensures
        crate::router::outcome_view(r) == stat_outcome(download@, stat),
{
    match stat {
        Ok(size) => Ok(download_response(download, size)),
        Err(failure) => Err(failure.into_error()),
    }
}

/// What the custom index page comes to once its file has been read: the
/// text as an HTML page, or the error that answers the failure.
pub open spec fn read_outcome(read: Result<String, Failure>) -> Result<ResponseView, ApiErrorView> {
    match read {
        Ok(text) => Ok(custom_index_answer(text@)),
        Err(failure) => Err(failure_error(failure.not_found, failure.detail@)),
    }
}

/// What the custom index page comes to once its file has been read.
pub fn read_answer(read: Result<String, Failure>) -> (r: Result<HttpResponse, ApiError>)
    ensures
        crate::router::outcome_view(r) == read_outcome(read),
{
    match read {
        Ok(text) => Ok(custom_index_page(text)),
        Err(failure) => Err(failure.into_error()),
    }
}

/// A directory that was read: the server's root directory and the directory
/// itself, both as canonical paths, and what the directory holds.
#[derive(Debug)]
pub struct Listed {
    pub root: String,
    pub target: String,
    pub files: Vec<crate::listing::Files>,
}

/// What the listing comes to once its directory has been read: the listing
/// of a directory at or below the root; status 400 for any other directory;
/// or the error that answers the failure.
pub open spec fn list_outcome(path: Seq<char>, read: Result<Listed, Failure>) -> Result<
    ResponseView,
    ApiErrorView,
> {
    match read {
        Ok(listed) => if resolve(Seq::empty(), listed.root@).is_prefix_of(
            resolve(Seq::empty(), listed.target@),
        ) {
            Ok(
                crate::listing::listing_response(
                    crate::listing::listing_document(
                        percent_decoded(path),
                        crate::listing::files_view(listed.files@),
                    ),
                ),
            )
        } else {
            Err(
                ApiErrorView::json(
                    400,
                    "Only paths relative to the current directory are allowed"@,
                ),
            )
        },
        Err(failure) => Err(failure_error(failure.not_found, failure.detail@)),
    }
}

/// What the listing comes to once its directory has been read. `path` is the
/// request's parameter.
pub fn list_answer(path: &str, read: Result<Listed, Failure>) -> (r: Result<
    HttpResponse,
    ApiError,
>)
    ensures
        crate::router::outcome_view(r) == list_outcome(path@, read),
{
    match read {
        Ok(listed) => crate::listing::list_directory(
            path,
            listed.root.as_str(),
            listed.target.as_str(),
            &listed.files,
        ),
        Err(failure) => Err(failure.into_error()),
    }
}

/// What a router of the default set comes to for a request, before anything
/// is read from disk.
///
/// What the router decides on its own is the answer. Where it calls the
/// handler of a route, the route is served: an answer goes through the
/// router's `finish`; anything else is left for the caller to read, to turn
/// into an outcome with `stat_answer`, `list_answer` or `read_answer`, and to
/// hand to `finish`.
pub open spec fn routed(
    router: RouterView,
    handlers: Seq<Endpoint>,
    files: Map<Seq<char>, Seq<u8>>,
    target: Seq<char>,
    method: Seq<char>,
    headers: Map<Seq<char>, Seq<char>>,
) -> ServedView {
    match router.dispatch(target, method, headers) {
        crate::router::Dispatch::Respond(response) => ServedView::Answer(Ok(response)),
        crate::router::Dispatch::Fail(error) => ServedView::Answer(Err(error)),
        crate::router::Dispatch::Invoke(index, entries) => match served(
            handlers[index],
            files,
            crate::text_map::map_of(entries),
        ) {
            ServedView::Answer(outcome) => ServedView::Answer(
                router.finish(target, method, outcome),
            ),
            other => other,
        },
    }
}

/// What a server with the default routes comes to for a request of which the
/// head has been read: a `Content-Length` that is no number is answered with
/// status 500; otherwise the server's router decides, as `routed` says.
pub open spec fn answered(
    server: crate::server::ServerView,
    handlers: Seq<Endpoint>,
    files: Map<Seq<char>, Seq<u8>>,
    target: Seq<char>,
    method: Seq<char>,
    headers: Map<Seq<char>, Seq<char>>,
) -> ServedView {
    match crate::request::announced_length(headers) {
        Err(fault) => ServedView::Answer(Err(ApiErrorView::json(500, fault.message()))),
        Ok(_) => routed(server.router, handlers, files, target, method, headers),
    }
}

/// Answers a request with a server that has the default routes, as far as
/// that goes without reading from disk.
pub fn answer_default(
    server: &crate::server::HttpServer<Endpoint>,
    files: &StaticFiles,
    target: &str,
    method: &str,
    headers: &TextMap,
) -> (r: Served)
    ensures
        r@ == answered(server@, server.handlers(), files@, target@, method@, headers@),
{
    proof {
        server.lemma_router();
    }
    match crate::request::body_length(headers) {
        Ok(_) => route_default(server.get_router(), files, target, method, headers),
        Err(error) => Served::Answer(Err(error)),
    }
}

/// Answers a request with a router of the default set, as far as that goes
/// without reading from disk.
pub fn route_default(
    router: &Router<Endpoint>,
    files: &StaticFiles,
    target: &str,
    method: &str,
    headers: &TextMap,
) -> (r: Served)
    ensures
        r@ == routed(router@, router.handlers(), files@, target@, method@, headers@),
{
    match router.resolve(target, method, headers) {
        crate::router::Resolution::Respond(response) => Served::Answer(Ok(response)),
        crate::router::Resolution::Fail(error) => Served::Answer(Err(error)),
        crate::router::Resolution::Invoke(index, params) => {
            proof {
                params.lemma_view();
            }
            match serve(router.handler_at(index), files, &params) {
                Served::Answer(outcome) => Served::Answer(router.finish(target, method, outcome)),
                Served::Stat(download) => Served::Stat(download),
                Served::List(path) => Served::List(path),
                Served::Read(path) => Served::Read(path),
            }
        },
    }
}

} // verus!
