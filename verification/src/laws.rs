//! What holds of every context, whatever the driver reports.

use vstd::prelude::*;
use crate::client::ContextView;
use crate::error::{FetchFailure, SdkError};
use crate::plan::{grant_field, grant_value, token_path, ActionView, EventView};
use crate::token::TokenView;

verus! {

/// A step never touches the URLs or the credentials, and it keeps the cache
/// usable as long as a fetched token is usable.
pub proof fn step_keeps_context(
    context: ContextView,
    method: reqwest::Method,
    path: Seq<char>,
    event: EventView,
)
    requires
        context.wf(),
        event matches EventView::TokenFetched(token) ==> token.wf(),
    ensures
        ({
            let after = context.step(method, path, event).0;
            &&& after.wf()
            &&& after.auth_url == context.auth_url
            &&& after.api_url == context.api_url
            &&& after.client_id == context.client_id
            &&& after.client_secret == context.client_secret
        }),
{
}

/// Only a fetched token changes the cache, and a cache that holds a token
/// holds one after every step: there is no way back to an empty cache.
pub proof fn cache_stays_filled(
    context: ContextView,
    method: reqwest::Method,
    path: Seq<char>,
    event: EventView,
)
    ensures
        !(event is TokenFetched) ==> context.step(method, path, event).0 == context,
        context.token is Some ==> context.step(method, path, event).0.token is Some,
{
}

/// A call on an empty cache asks for exactly the token request: a `POST` to
/// the authorization URL followed by `/oauth/token`, with the client's id and
/// secret as Basic credentials and the one form field
/// `grant_type=client_credentials`. Once the token has arrived the call
/// succeeds with a request to the API URL followed by the path, bearing the
/// access token that arrived.
pub proof fn first_call_fetches(
    context: ContextView,
    method: reqwest::Method,
    path: Seq<char>,
    token: TokenView,
)
    requires
        context.token is None,
    ensures
        ({
            let (waiting, asked) = context.step(method, path, EventView::Call);
            let (filled, sent) = waiting.step(method, path, EventView::TokenFetched(token));
            &&& waiting == context
            &&& asked matches ActionView::FetchToken(fetch)
            &&& fetch.url == context.auth_url + token_path()
            &&& fetch.username == context.client_id
            &&& fetch.password == context.client_secret
            &&& fetch.form == seq![(grant_field(), grant_value())]
            &&& filled.token == Some(token)
            &&& sent matches ActionView::Send(request)
            &&& request.method == method
            &&& request.url == context.api_url + path
            &&& request.bearer_token == token.access_token
        }),
{
}

/// After a token has been fetched, a later call for any method and path
/// succeeds at once, asks for no further fetch, bears the same access token
/// and leaves the context as it is.
pub proof fn cached_token_is_reused(
    context: ContextView,
    first_method: reqwest::Method,
    first_path: Seq<char>,
    token: TokenView,
    method: reqwest::Method,
    path: Seq<char>,
)
    ensures
        ({
            let filled = context.step(first_method, first_path, EventView::TokenFetched(token)).0;
            let (after, action) = filled.step(method, path, EventView::Call);
            &&& after == filled
            &&& action matches ActionView::Send(request)
            &&& request.bearer_token == token.access_token
            &&& request.url == context.api_url + path
            &&& request.method == method
        }),
{
}

/// A failed fetch fails the call with the error of that failure and leaves
/// the context as it was, so that the next call on an empty cache asks for a
/// fresh fetch.
pub proof fn failed_fetch_keeps_cache(
    context: ContextView,
    method: reqwest::Method,
    path: Seq<char>,
    failure: FetchFailure,
    next_method: reqwest::Method,
    next_path: Seq<char>,
)
    ensures
        context.step(method, path, EventView::FetchFailed(failure)) == (
            context,
            ActionView::Fail(failure.error()),
        ),
        context.token is None ==> context.step(method, path, EventView::FetchFailed(failure)).0.step(
            next_method,
            next_path,
            EventView::Call,
        ).1 == ActionView::FetchToken(context.token_request()),
{
}

/// A token reply with a status outside 200 to 299 fails the call with
/// `TransportError`, whatever its body holds, and leaves the context as it
/// was.
pub proof fn bad_status_fails_call(
    context: ContextView,
    method: reqwest::Method,
    path: Seq<char>,
    status: u16,
)
    requires
        !(200 <= status && status < 300),
    ensures
        FetchFailure::status_failure(status) matches Some(failure) && context.step(
            method,
            path,
            EventView::FetchFailed(failure),
        ) == (context, ActionView::Fail(SdkError::TransportError)),
{
}

/// The address of every authorized request is the API URL followed by the
/// path, with nothing put between them and nothing taken away.
pub proof fn url_is_concatenation(
    context: ContextView,
    method: reqwest::Method,
    path: Seq<char>,
    event: EventView,
)
    ensures
        context.step(method, path, event).1 matches ActionView::Send(request) ==> {
            &&& request.url == context.api_url + path
            &&& request.url.len() == context.api_url.len() + path.len()
            &&& request.url.take(context.api_url.len() as int) == context.api_url
            &&& request.url.skip(context.api_url.len() as int) == path
        },
{
}

/// Two calls for the same method and path on a filled cache yield the same
/// request: the same method, address and bearer token.
pub proof fn repeated_call_same_request(context: ContextView, method: reqwest::Method, path: Seq<char>)
    requires
        context.token is Some,
    ensures
        ({
            let (after, first) = context.step(method, path, EventView::Call);
            let (last, second) = after.step(method, path, EventView::Call);
            &&& first is Send
            &&& second == first
            &&& last == context
        }),
{
}

} // verus!
