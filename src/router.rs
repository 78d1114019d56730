use vstd::prelude::*;
use vstd::utf8::encode_utf8;

use crate::auth::{
    check_api_key, credential_accepted, invalid_key_text, missing_key_text, provided_view,
    rejection_text,
};
use crate::error::{error_text, LLMError};
use crate::reply::{ContentType, HttpReply, ReplyView, STATUS_OK, STATUS_UNAUTHORIZED};
use crate::responses::{busy_json, IsBusyResponse};
use crate::APP_VERSION;

verus! {

/// The handlers a request path can lead to.
#[derive(Clone, Copy, Debug, PartialEq, Eq, Structural)]
pub enum Route {
    Root,
    SubmitPrompt,
    IsBusy,
    Other,
}

/// The handler that serves a path; every method on a path is treated alike.
pub open spec fn route_of(path: Seq<char>) -> Route {
    if path == "/"@ {
        Route::Root
    } else if path == "/submit_prompt"@ {
        Route::SubmitPrompt
    } else if path == "/is_busy"@ {
        Route::IsBusy
    } else {
        Route::Other
    }
}

/// The routes that are answered even while the resource is held.
pub open spec fn exempt_from_busy(route: Route) -> bool {
    route == Route::Root || route == Route::IsBusy
}

/// Whether the busy short-circuit answers a request for this path.
pub open spec fn busy_blocks(path: Seq<char>, busy: bool) -> bool {
    busy && !exempt_from_busy(route_of(path))
}

/// The server identification served at the root path.
pub open spec fn identity_text() -> Seq<char> {
    "Open LLM Server v"@ + APP_VERSION@
}

/// A reply with status 200.
pub open spec fn ok_view(content_type: Option<ContentType>, body: Seq<char>) -> ReplyView {
    ReplyView { status: STATUS_OK, content_type, body }
}

/// The reply of the busy short-circuit.
pub open spec fn busy_view() -> ReplyView {
    ok_view(Some(ContentType::ApplicationJson), busy_json(false, true))
}

/// The reply that rejects a request with the given message.
pub open spec fn unauthorized_view(message: Seq<char>) -> ReplyView {
    ReplyView { status: STATUS_UNAUTHORIZED, content_type: Some(ContentType::TextPlain), body: message }
}

/// What a route answers once a request has passed both checks, with `busy`
/// the state of the guard; `None` for the prompt route, whose answer comes
/// from the inference resource.
pub open spec fn dispatch_reply(route: Route, busy: bool) -> Option<ReplyView> {
    match route {
        Route::Root => Some(ok_view(Some(ContentType::TextPlain), identity_text())),
        Route::IsBusy => Some(ok_view(Some(ContentType::ApplicationJson), busy_json(true, busy))),
        Route::Other => Some(ok_view(None, Seq::empty())),
        Route::SubmitPrompt => None,
    }
}

/// Routing of a server with no credential configured: the busy check, then
/// the route.
pub open spec fn unprotected_reply(path: Seq<char>, busy: bool) -> Option<ReplyView> {
    if busy_blocks(path, busy) {
        Some(busy_view())
    } else {
        dispatch_reply(route_of(path), busy)
    }
}

/// The full admission policy: the busy check first, then the credential,
/// then the route.
pub open spec fn routed_reply(
    path: Seq<char>,
    busy: bool,
    api_key: Option<Seq<char>>,
    provided: Option<Seq<u8>>,
) -> Option<ReplyView> {
    if busy_blocks(path, busy) {
        Some(busy_view())
    } else if !credential_accepted(api_key, provided) {
        Some(unauthorized_view(rejection_text(provided)))
    } else {
        dispatch_reply(route_of(path), busy)
    }
}

/// Text equality of two strings.
fn same_text(a: &str, b: &str) -> (r: bool)
    ensures
        r == (a@ == b@),
{
    let x = a.to_owned();
    let y = b.to_owned();
    x == y
}

/// Maps a request path to its route.
pub fn route_of_path(path: &str) -> (r: Route)
    ensures
        r == route_of(path@),
{
    if same_text(path, "/") {
        Route::Root
    } else if same_text(path, "/submit_prompt") {
        Route::SubmitPrompt
    } else if same_text(path, "/is_busy") {
        Route::IsBusy
    } else {
        Route::Other
    }
}

/// The outcome of the two checks every request goes through.
#[derive(Clone, Debug, PartialEq, Eq)]
pub enum Admission {
    Busy,
    Unauthorized(LLMError),
    Proceed(Route),
}

/// Applies the busy check and then the credential check to a request.
pub fn check_admission(path: &str, busy: bool, api_key: &Option<String>, authorization: Option<&[u8]>) -> (r:
    Admission)
    ensures
        r is Busy <==> busy_blocks(path@, busy),
        r is Unauthorized <==> !busy_blocks(path@, busy) && !credential_accepted(
            api_key.deep_view(),
            provided_view(authorization),
        ),
        r matches Admission::Unauthorized(e) ==> e matches LLMError::Custom(m) && m@
            == rejection_text(provided_view(authorization)),
        r matches Admission::Proceed(route) ==> route == route_of(path@),
{
    let route = route_of_path(path);
    let exempt = match route {
        Route::Root | Route::IsBusy => true,
        _ => false,
    };
    if busy && !exempt {
        return Admission::Busy;
    }
    match check_api_key(api_key, authorization) {
        Ok(()) => Admission::Proceed(route),
        Err(e) => Admission::Unauthorized(e),
    }
}

/// Turns a status answer into its JSON reply.
pub fn is_busy_http_response(response: IsBusyResponse) -> (r: HttpReply)
    ensures
        r@ == ok_view(Some(ContentType::ApplicationJson), busy_json(response.success, response.is_busy)),
{
    HttpReply {
        status: STATUS_OK,
        content_type: Some(ContentType::ApplicationJson),
        body: response.to_json(),
    }
}

/// The reply of the status route, from the live state of the guard.
pub fn is_busy_endpoint(lock_held: bool) -> (r: HttpReply)
    ensures
        r@ == ok_view(Some(ContentType::ApplicationJson), busy_json(true, lock_held)),
{
    is_busy_http_response(IsBusyResponse::new(lock_held, true))
}

/// The reply of the root route: the server identification in plain text.
pub fn root_endpoint() -> (r: HttpReply)
    ensures
        r@ == ok_view(Some(ContentType::TextPlain), identity_text()),
{
    let mut body = String::from_str("Open LLM Server v");
    body.append(APP_VERSION);
    HttpReply { status: STATUS_OK, content_type: Some(ContentType::TextPlain), body }
}

/// The reply that rejects a request for a failed credential check.
pub fn unauthorized_reply(e: &LLMError) -> (r: HttpReply)
    ensures
        r@ == unauthorized_view(error_text(*e)),
{
    HttpReply {
        status: STATUS_UNAUTHORIZED,
        content_type: Some(ContentType::TextPlain),
        body: e.message(),
    }
}

/// The empty reply of every path that no handler serves.
pub fn empty_reply() -> (r: HttpReply)
    ensures
        r@ == ok_view(None, Seq::empty()),
{
    HttpReply { status: STATUS_OK, content_type: None, body: String::new() }
}

/// Where routing leads a request.
#[derive(Clone, Debug)]
pub enum Routed {
    /// The request is answered at once with this reply.
    Respond(HttpReply),
    /// The request goes on to the prompt handler.
    SubmitPrompt,
}

/// Routes a request given its path, the state of the guard as a
/// non-blocking acquisition attempt found it, the configured credential and
/// the raw `Authorization` header of the request.
pub fn route_requests(
    path: &str,
    busy: bool,
    api_key: &Option<String>,
    authorization: Option<&[u8]>,
) -> (r: Routed)
    ensures
        r is SubmitPrompt <==> routed_reply(
            path@,
            busy,
            api_key.deep_view(),
            provided_view(authorization),
        ) is None,
        r matches Routed::Respond(reply) ==> routed_reply(
            path@,
            busy,
            api_key.deep_view(),
            provided_view(authorization),
        ) == Some(reply@),
{
    match check_admission(path, busy, api_key, authorization) {
        Admission::Busy => Routed::Respond(is_busy_http_response(IsBusyResponse::new(true, false))),
        Admission::Unauthorized(e) => Routed::Respond(unauthorized_reply(&e)),
        Admission::Proceed(route) => match route {
            Route::Root => Routed::Respond(root_endpoint()),
            Route::SubmitPrompt => Routed::SubmitPrompt,
            Route::IsBusy => Routed::Respond(is_busy_endpoint(busy)),
            Route::Other => Routed::Respond(empty_reply()),
        },
    }
}

/// While the resource is held, every route but the root and the status
/// route answers busy, before and whatever the credential check would say.
pub proof fn busy_precedes_credential(
    path: Seq<char>,
    api_key: Option<Seq<char>>,
    provided: Option<Seq<u8>>,
)
    requires
        !exempt_from_busy(route_of(path)),
    ensures
        routed_reply(path, true, api_key, provided) == Some(busy_view()),
{
}

/// With a credential configured, a request that the busy check lets through
/// is rejected with status 401 when it carries no credential or one that
/// differs from the configured one; one that carries exactly the configured
/// credential is routed as on a server without a credential.
pub proof fn configured_credential_is_enforced(
    path: Seq<char>,
    busy: bool,
    key: Seq<char>,
    provided: Option<Seq<u8>>,
)
    ensures
        !busy_blocks(path, busy) && provided is None ==> routed_reply(path, busy, Some(key), provided)
            == Some(unauthorized_view(missing_key_text())),
        !busy_blocks(path, busy) && provided is Some && provided != Some(encode_utf8(key))
            ==> routed_reply(path, busy, Some(key), provided) == Some(
            unauthorized_view(invalid_key_text()),
        ),
        routed_reply(path, busy, Some(key), Some(encode_utf8(key))) == unprotected_reply(path, busy),
{
}

/// Without a configured credential, every request is routed alike whatever
/// `Authorization` header it carries, and none is rejected as unauthorized.
pub proof fn no_credential_admits_all(path: Seq<char>, busy: bool, provided: Option<Seq<u8>>)
    ensures
        routed_reply(path, busy, None, provided) == unprotected_reply(path, busy),
        routed_reply(path, busy, None, provided) matches Some(reply) ==> reply.status == STATUS_OK,
{
}

/// A path that no handler serves gets an empty reply with status 200 when
/// the resource is free and the request is authorized.
pub proof fn unknown_path_gets_empty_reply(
    path: Seq<char>,
    busy: bool,
    api_key: Option<Seq<char>>,
    provided: Option<Seq<u8>>,
)
    requires
        route_of(path) == Route::Other,
        !busy,
        credential_accepted(api_key, provided),
    ensures
        routed_reply(path, busy, api_key, provided) == Some(ok_view(None, Seq::empty())),
{
}

/// The root path answers with the server identification for an authorized
/// request, whether or not the resource is held.
pub proof fn root_is_served_while_busy(
    busy: bool,
    api_key: Option<Seq<char>>,
    provided: Option<Seq<u8>>,
)
    requires
        credential_accepted(api_key, provided),
    ensures
        routed_reply("/"@, busy, api_key, provided) == Some(
            ok_view(Some(ContentType::TextPlain), identity_text()),
        ),
{
}

/// The status route is never short-circuited: an authorized request gets
/// `success: true` and `is_busy` equal to the state of the guard.
pub proof fn status_reflects_guard(busy: bool, api_key: Option<Seq<char>>, provided: Option<Seq<u8>>)
    requires
        credential_accepted(api_key, provided),
    ensures
        routed_reply("/is_busy"@, busy, api_key, provided) == Some(
            ok_view(Some(ContentType::ApplicationJson), busy_json(true, busy)),
        ),
{
    reveal_strlit("/");
    reveal_strlit("/submit_prompt");
    reveal_strlit("/is_busy");
    assert("/is_busy"@.len() != "/"@.len());
    assert("/is_busy"@[1] != "/submit_prompt"@[1]);
}

} // verus!
