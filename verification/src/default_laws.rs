//! What holds of every request that a router with the default routes
//! answers.
//!
//! Whether a path matches a route is for `regex` to say. The laws here take
//! the route that a request selects as given, and say what the request then
//! comes to.
use crate::api::{
    asset_name, asset_response, default_endpoints, default_paths, default_table, download_answer, download_plan,
    failure_error, index_response, routed, served, stat_outcome, DownloadView, Endpoint, Failure,
    ServedView,
};
use crate::errors::api_error::{
    error_page, message_document, reason_phrase, text_view, ApiErrorView, PAGE_CLOSING, PAGE_MIDDLE,
    PAGE_OPENING,
};
use crate::http_response::{BodyView, FileView};
use crate::number::decimal;
use crate::router::{params_entries, route_pattern, RouterView};
use crate::routing_laws::{lemma_first_match_is, selects};
use crate::static_files::{StaticFiles, INDEX_HTML, SCRIPT_JS};
use crate::text_map::map_of;
use vstd::string::StringSliceAdditionalSpecFns;
use vstd::prelude::*;

verus! {

/// Whether a router with these handlers holds exactly the default routes.
pub open spec fn is_default(
    router: RouterView,
    handlers: Seq<Endpoint>,
    authorize: bool,
    index_path: Option<String>,
) -> bool {
    router.routes == default_table(authorize, text_view(index_path)) && handlers
        == default_endpoints(index_path)
}

/// A router that had no routes before the default routes were added holds
/// exactly the default routes.
pub proof fn lemma_fresh_router_is_default(
    before: RouterView,
    before_handlers: Seq<Endpoint>,
    after: RouterView,
    after_handlers: Seq<Endpoint>,
    authorize: bool,
    index_path: Option<String>,
)
    requires
        before.routes.len() == 0,
        before_handlers.len() == 0,
        after.routes == before.routes + default_table(authorize, text_view(index_path)),
        after_handlers == before_handlers + default_endpoints(index_path),
    ensures
        is_default(after, after_handlers, authorize, index_path),
{
    assert(after.routes =~= default_table(authorize, text_view(index_path)));
    assert(after_handlers =~= default_endpoints(index_path));
}

/// The parameters that the default route with index `index` receives for
/// `target`.
pub open spec fn default_params(index_path: Option<String>, index: int, target: Seq<char>) -> Map<
    Seq<char>,
    Seq<char>,
> {
    map_of(params_entries(route_pattern(default_paths(text_view(index_path))[index]), target))
}

/// What is served, once the router has had its say: an answer goes through
/// `finish`; anything else stays as it is.
pub open spec fn finished(
    router: RouterView,
    target: Seq<char>,
    method: Seq<char>,
    step: ServedView,
) -> ServedView {
    match step {
        ServedView::Answer(outcome) => ServedView::Answer(router.finish(target, method, outcome)),
        other => other,
    }
}

/// Every default route is served by its own handler: a `GET` request whose
/// path selects the default route with index `index`, and which presents the
/// server's credentials where the routes ask for authorization, comes to what
/// `served` says of that route's endpoint and the route's parameters.
pub proof fn lemma_default_route(
    router: RouterView,
    handlers: Seq<Endpoint>,
    files: Map<Seq<char>, Seq<u8>>,
    target: Seq<char>,
    headers: Map<Seq<char>, Seq<char>>,
    authorize: bool,
    index_path: Option<String>,
    index: int,
)
    requires
        is_default(router, handlers, authorize, index_path),
        selects(router, target, index),
        authorize ==> router.admits(headers),
    ensures
        routed(router, handlers, files, target, "GET"@, headers) == finished(
            router,
            target,
            "GET"@,
            served(
                default_endpoints(index_path)[index],
                files,
                default_params(index_path, index, target),
            ),
        ),
{
    reveal_strlit("GET");
    reveal_strlit("OPTIONS");
    assert("GET"@.len() == 3 && "OPTIONS"@.len() == 7);
    lemma_first_match_is(router.routes, crate::router::request_path(target), 0, index);
}

/// A request for a built-in asset is answered with the asset: where the
/// request's path selects the asset route, the asset that is asked for (the
/// one that the parameter `file` names, or `index.html` without that
/// parameter) is one of the two built-in assets, and the routes ask for no
/// authorization, the answer has status 200, the asset's bytes as body, the
/// media type that the asset's name suggests, and
/// `Cache-Control: public, max-age=31536000` as its one header before those
/// of the CORS policy.
pub proof fn lemma_asset_is_served(
    router: RouterView,
    handlers: Seq<Endpoint>,
    target: Seq<char>,
    headers: Map<Seq<char>, Seq<char>>,
)
    requires
        is_default(router, handlers, false, None),
        selects(router, target, 0),
        asset_name(default_params(None, 0, target)) == "index.html"@ || asset_name(
            default_params(None, 0, target),
        ) == "script.js"@,
    ensures
        ({
            let name = asset_name(default_params(None, 0, target));
            let bytes = if name == "index.html"@ {
                INDEX_HTML.spec_bytes()
            } else {
                SCRIPT_JS.spec_bytes()
            };
            routed(
                router,
                handlers,
                StaticFiles::built_in(),
                target,
                "GET"@,
                headers,
            ) matches ServedView::Answer(Ok(response)) && response == asset_response(
                name,
                bytes,
            ).with_headers(router.cors_headers()) && response.status_code == 200 && response.body
                == Some(BodyView::StaticFile(bytes, name)) && response.content_type
                == crate::mime::media_type_or_text(name) && response.headers == seq![
                ("Cache-Control"@, "public, max-age=31536000"@),
            ] + router.cors_headers()
        }),
{
    StaticFiles::lemma_built_in();
    lemma_default_route(
        router,
        handlers,
        StaticFiles::built_in(),
        target,
        headers,
        false,
        None,
        0,
    );
}

/// A request that only the catch-all matches is answered with the index
/// page: where the request's path selects the last default route and the
/// routes ask for no authorization, the answer has status 200, the content
/// type `text/html`, and the bytes of the built-in `index.html` as body.
pub proof fn lemma_catch_all_serves_index(
    router: RouterView,
    handlers: Seq<Endpoint>,
    target: Seq<char>,
    headers: Map<Seq<char>, Seq<char>>,
)
    requires
        is_default(router, handlers, false, None),
        selects(router, target, 3),
    ensures
        routed(
            router,
            handlers,
            StaticFiles::built_in(),
            target,
            "GET"@,
            headers,
        ) matches ServedView::Answer(Ok(response)) && response == index_response(
            INDEX_HTML.spec_bytes(),
        ).with_headers(router.cors_headers()) && response.status_code == 200
            && response.content_type == "text/html"@ && response.body == Some(
            BodyView::StaticFile(INDEX_HTML.spec_bytes(), "index.html"@),
        ),
{
    StaticFiles::lemma_built_in();
    lemma_default_route(
        router,
        handlers,
        StaticFiles::built_in(),
        target,
        headers,
        false,
        None,
        3,
    );
}

/// A download without the parameter `path` fails with status 500 and the
/// JSON document whose message is `Missing path parameter`; no file is
/// looked at.
pub proof fn lemma_download_without_path(
    router: RouterView,
    handlers: Seq<Endpoint>,
    files: Map<Seq<char>, Seq<u8>>,
    target: Seq<char>,
    headers: Map<Seq<char>, Seq<char>>,
)
    requires
        is_default(router, handlers, false, None),
        selects(router, target, 1),
        !default_params(None, 1, target).contains_key("path"@),
    ensures
        routed(router, handlers, files, target, "GET"@, headers) matches ServedView::Answer(
            Err(error),
        ) && error == router.attach(
            ApiErrorView::json(500, "Missing path parameter"@),
            target,
            "GET"@,
        ) && error.error_response.status_code == 500 && error.error_response.content_type
            == "application/json"@ && error.error_response.body == Some(
            BodyView::Json(message_document("Missing path parameter"@)),
        ),
{
    lemma_default_route(router, handlers, files, target, headers, false, None, 1);
}

/// A download whose parameter `path` leads to a file name asks for the size
/// of that file, and then comes to the file as an attachment under that
/// name, with the media type that the name suggests, or to the error that
/// answers the failed look-up.
pub proof fn lemma_download(
    router: RouterView,
    handlers: Seq<Endpoint>,
    files: Map<Seq<char>, Seq<u8>>,
    target: Seq<char>,
    headers: Map<Seq<char>, Seq<char>>,
    stat: Result<u64, Failure>,
)
    requires
        is_default(router, handlers, false, None),
        selects(router, target, 1),
        download_plan(default_params(None, 1, target)) is Ok,
    ensures
        ({
            let download = download_plan(default_params(None, 1, target))->Ok_0;
            &&& routed(router, handlers, files, target, "GET"@, headers) == ServedView::Stat(
                download,
            )
            &&& download.path == default_params(None, 1, target)["path"@]
            &&& download.content_type == crate::mime::media_type_or_binary(download.file_name)
            &&& stat matches Ok(size) ==> stat_outcome(download, stat) matches Ok(response)
                && response.status_code == 200 && response.content_type == download.content_type
                && response.body == Some(
                BodyView::Attachment(
                    FileView { path: download.path, size },
                    download.file_name,
                ),
            )
            &&& stat matches Err(failure) ==> stat_outcome(download, stat) == Err::<
                crate::http_response::ResponseView,
                ApiErrorView,
            >(failure_error(failure.not_found, failure.detail@))
        }),
{
    lemma_default_route(router, handlers, files, target, headers, false, None, 1);
}

/// `words` between `before` and `after`.
pub open spec fn framed(before: Seq<char>, words: Seq<char>, after: Seq<char>) -> Seq<char> {
    before + words + after
}

/// Whether `words` stands somewhere in `text`.
pub open spec fn holds(text: Seq<char>, words: Seq<char>) -> bool {
    exists|before: Seq<char>, after: Seq<char>| text == #[trigger] framed(before, words, after)
}

/// The page that reports a file that was not found holds the words
/// `404 Not Found`, under status 404 and as `text/html`.
pub proof fn lemma_not_found_page(detail: Seq<char>)
    ensures
        failure_error(true, detail).error_response.status_code == 404,
        failure_error(true, detail).error_response.content_type == "text/html"@,
        failure_error(true, detail).error_response.body == Some(
            BodyView::Text(error_page(404, "IO Error: "@ + detail)),
        ),
        holds(error_page(404, "IO Error: "@ + detail), "404 Not Found"@),
{
    reveal_strlit("404 Not Found");
    reveal_strlit("Not Found");
    reveal_strlit(" ");
    assert(decimal(404) =~= seq!['4', '0', '4']) by {
        reveal_with_fuel(decimal, 3);
    }
    assert(reason_phrase(404) == "Not Found"@);
    let words = decimal(404) + " "@ + "Not Found"@;
    assert(words =~= "404 Not Found"@);
    let before = PAGE_OPENING@;
    let after = PAGE_MIDDLE@ + ("IO Error: "@ + detail) + PAGE_CLOSING@;
    assert(error_page(404, "IO Error: "@ + detail) =~= framed(before, "404 Not Found"@, after));
}

} // verus!
