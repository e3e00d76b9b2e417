//! What holds of every dispatch.
use crate::auth::{lemma_basic_presents, presented};
use crate::encoding::base64_bytes;
use crate::errors::api_error::message_document;
use crate::http_response::BodyView;
use crate::pattern::regex_captures;
use crate::router::{first_match, params_entries, request_path, Dispatch, RouteView, RouterView};
use crate::tokens::is_whitespace;
use vstd::prelude::*;
use vstd::utf8::encode_utf8;

verus! {

/// Whether the route with index `index` is the first whose expression
/// matches the path of `target`.
pub open spec fn selects(router: RouterView, target: Seq<char>, index: int) -> bool {
    &&& 0 <= index < router.routes.len()
    &&& regex_captures(router.routes[index].pattern, request_path(target)) is Some
    &&& forall|j: int|
        0 <= j < index ==> regex_captures(
            (#[trigger] router.routes[j]).pattern,
            request_path(target),
        ) is None
}

/// Where no route before `index` matches and the one at `index` does, the
/// first match from `from` on is `index`.
pub proof fn lemma_first_match_is(routes: Seq<RouteView>, path: Seq<char>, from: int, index: int)
    requires
        0 <= from <= index < routes.len(),
        regex_captures(routes[index].pattern, path) is Some,
        forall|j: int|
            from <= j < index ==> regex_captures((#[trigger] routes[j]).pattern, path) is None,
    ensures
        first_match(routes, path, from) == Some(index),
    decreases index - from,
{
    if from < index {
        assert(regex_captures(routes[from].pattern, path) is None);
        lemma_first_match_is(routes, path, from + 1, index);
    }
}

/// The first match, where there is one, is a route from `from` on whose
/// expression matches, and no route between `from` and it matches.
pub proof fn lemma_first_match(routes: Seq<RouteView>, path: Seq<char>, from: int)
    requires
        0 <= from,
    ensures
        first_match(routes, path, from) matches Some(index) ==> {
            &&& from <= index < routes.len()
            &&& regex_captures(routes[index].pattern, path) is Some
            &&& forall|j: int|
                from <= j < index ==> regex_captures((#[trigger] routes[j]).pattern, path) is None
        },
    decreases routes.len() - from,
{
    if from < routes.len() && regex_captures(routes[from].pattern, path) is None {
        lemma_first_match(routes, path, from + 1);
    }
}

/// Where no route matches, there is no first match.
pub proof fn lemma_first_match_none(routes: Seq<RouteView>, path: Seq<char>, from: int)
    requires
        0 <= from,
        forall|j: int|
            0 <= j < routes.len() ==> regex_captures((#[trigger] routes[j]).pattern, path) is None,
    ensures
        first_match(routes, path, from) is None,
    decreases routes.len() - from,
{
    if from < routes.len() {
        assert(regex_captures(routes[from].pattern, path) is None);
        lemma_first_match_none(routes, path, from + 1);
    }
}

/// A request whose path selects a route, with a method that is neither
/// `OPTIONS` nor the route's own, is refused with status 405.
pub proof fn lemma_method_not_allowed(
    router: RouterView,
    target: Seq<char>,
    method: Seq<char>,
    headers: Map<Seq<char>, Seq<char>>,
    index: int,
)
    requires
        selects(router, target, index),
        method != "OPTIONS"@,
        method != router.routes[index].method.token(),
    ensures
        router.dispatch(target, method, headers) matches Dispatch::Fail(error)
            && error.error_response.status_code == 405,
{
    lemma_first_match_is(router.routes, request_path(target), 0, index);
}

/// A request whose path no route matches, with a method other than
/// `OPTIONS`, is answered with status 404 and the JSON document whose
/// message names the request's target.
pub proof fn lemma_not_found(
    router: RouterView,
    target: Seq<char>,
    method: Seq<char>,
    headers: Map<Seq<char>, Seq<char>>,
)
    requires
        method != "OPTIONS"@,
        forall|j: int|
            0 <= j < router.routes.len() ==> regex_captures(
                (#[trigger] router.routes[j]).pattern,
                request_path(target),
            ) is None,
    ensures
        router.dispatch(target, method, headers) matches Dispatch::Respond(response)
            && response.status_code == 404 && response.body == Some(
            BodyView::Json(message_document("No route found for path "@ + target)),
        ),
{
    lemma_first_match_none(router.routes, request_path(target), 0);
}

/// A request with the method `OPTIONS` is answered with status 204, without
/// a body, and with exactly the headers of the CORS policy, whatever its
/// target and whatever routes there are.
pub proof fn lemma_preflight(
    router: RouterView,
    target: Seq<char>,
    headers: Map<Seq<char>, Seq<char>>,
)
    ensures
        router.dispatch(target, "OPTIONS"@, headers) matches Dispatch::Respond(response)
            && response.status_code == 204 && response.body is None && response.headers
            == router.cors_headers(),
{
}

/// The first match wins: where a handler is called, it is the handler of the
/// first route whose expression matches the request's path; the request's
/// method is that route's and is not `OPTIONS`; where the route asks for
/// authorization, the request presents the server's credentials; and the
/// handler receives the parameters of that route for the request's target.
pub proof fn lemma_invoke(
    router: RouterView,
    target: Seq<char>,
    method: Seq<char>,
    headers: Map<Seq<char>, Seq<char>>,
)
    ensures
        router.dispatch(target, method, headers) matches Dispatch::Invoke(index, entries) ==> {
            &&& selects(router, target, index)
            &&& method != "OPTIONS"@
            &&& router.routes[index].method.token() == method
            &&& router.routes[index].authorize ==> router.admits(headers)
            &&& entries == params_entries(router.routes[index].pattern, target)
        },
{
    lemma_first_match(router.routes, request_path(target), 0);
}

/// Basic authentication guards every route that asks for it.
///
/// Take a server with the credentials `expected` and a request whose path
/// selects a route that asks for authorization, with the route's method.
/// Where the request's `Authorization` header presents exactly `expected`,
/// the route is entered. In every other case the request is refused with
/// status 401 and the header `WWW-Authenticate: Basic`.
pub proof fn lemma_basic_auth(
    router: RouterView,
    target: Seq<char>,
    method: Seq<char>,
    headers: Map<Seq<char>, Seq<char>>,
    index: int,
    expected: (Seq<char>, Seq<char>),
)
    requires
        selects(router, target, index),
        router.routes[index].authorize,
        router.routes[index].method.token() == method,
        method != "OPTIONS"@,
        router.credentials == Some(expected),
    ensures
        router.admits(headers) ==> router.dispatch(target, method, headers) == Dispatch::Invoke(
            index,
            params_entries(router.routes[index].pattern, target),
        ),
        !router.admits(headers) ==> (router.dispatch(target, method, headers)
            matches Dispatch::Fail(error) && error.error_response.status_code == 401
            && error.error_response.headers.contains(("WWW-Authenticate"@, "Basic"@))),
        router.admits(headers) <==> headers.contains_key("Authorization"@) && presented(
            headers["Authorization"@],
        ) == Some(expected),
{
    lemma_first_match_is(router.routes, request_path(target), 0, index);
    if !router.admits(headers) {
        let error = router.challenge(target, method);
        let own = seq![("WWW-Authenticate"@, "Basic"@)];
        assert(own[0] == ("WWW-Authenticate"@, "Basic"@));
        assert(error.error_response.headers[0] == ("WWW-Authenticate"@, "Basic"@));
    }
}

/// A request that presents the server's credentials in the usual form enters
/// the route: the header is `Basic`, one space, and Base64 for the user
/// name, a colon and the password. The user name must hold no colon.
pub proof fn lemma_basic_auth_admits(
    router: RouterView,
    headers: Map<Seq<char>, Seq<char>>,
    word: Seq<char>,
    user: Seq<char>,
    password: Seq<char>,
)
    requires
        router.credentials == Some((user, password)),
        headers.contains_key("Authorization"@),
        headers["Authorization"@] == "Basic "@ + word,
        word.len() > 0,
        forall|i: int| 0 <= i < word.len() ==> !is_whitespace(#[trigger] word[i]),
        base64_bytes(word) == Some(encode_utf8(user + seq![':'] + password)),
        forall|i: int| 0 <= i < user.len() ==> user[i] != ':',
    ensures
        router.admits(headers),
{
    lemma_basic_presents(word, user, password);
}

} // verus!
