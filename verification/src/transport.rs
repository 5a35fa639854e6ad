//! The door to `reqwest`. Verus takes every contract in this file on trust.
//! The values that pass through here are opaque to it. Where a call's result
//! is a function of its arguments alone, the result has a name here and the
//! wrapper says no more than that the call returns it: which values were
//! handed in, and in which order, is then part of what is proved elsewhere.
//! Building a transport reads the platform, so its result has no name.

use vstd::prelude::*;

verus! {

/// `reqwest::Client`, the reusable transport handle.
#[verifier::external_type_specification]
#[verifier::external_body]
pub struct ExClient(reqwest::Client);

/// `reqwest::ClientBuilder`, a transport configuration not yet built.
#[verifier::external_type_specification]
#[verifier::external_body]
pub struct ExClientBuilder(reqwest::ClientBuilder);

/// `reqwest::RequestBuilder`, a request under construction.
#[verifier::external_type_specification]
#[verifier::external_body]
pub struct ExRequestBuilder(reqwest::RequestBuilder);

/// `reqwest::Method`, an HTTP method token.
#[verifier::external_type_specification]
#[verifier::external_body]
pub struct ExMethod(reqwest::Method);

/// `reqwest::Error`, the transport's error.
#[verifier::external_type_specification]
#[verifier::external_body]
pub struct ExError(reqwest::Error);

/// What `reqwest::Client::post` returns for a transport and a URL.
pub uninterp spec fn posted(client: reqwest::Client, url: Seq<char>) -> reqwest::RequestBuilder;

/// What `reqwest::Client::request` returns for a transport, a method and a
/// URL.
pub uninterp spec fn started(
    client: reqwest::Client,
    method: reqwest::Method,
    url: Seq<char>,
) -> reqwest::RequestBuilder;

/// What `reqwest::RequestBuilder::basic_auth` returns for a builder, a user
/// name and a password.
pub uninterp spec fn with_basic(
    builder: reqwest::RequestBuilder,
    username: Seq<char>,
    password: Seq<char>,
) -> reqwest::RequestBuilder;

/// What `reqwest::RequestBuilder::form` returns for a builder and a form of
/// one field.
pub uninterp spec fn with_form(
    builder: reqwest::RequestBuilder,
    field: Seq<char>,
    value: Seq<char>,
) -> reqwest::RequestBuilder;

/// What `reqwest::RequestBuilder::bearer_auth` returns for a builder and a
/// token.
pub uninterp spec fn with_bearer(
    builder: reqwest::RequestBuilder,
    token: Seq<char>,
) -> reqwest::RequestBuilder;

/// What `reqwest::Error::is_decode` answers for an error.
pub uninterp spec fn decode_flag(error: reqwest::Error) -> bool;

/// Calls `reqwest::ClientBuilder::build`, which makes a transport from a
/// configuration or reports why it cannot. Nothing is claimed of the outcome.
#[verifier::external_body]
pub(crate) fn build_client(builder: reqwest::ClientBuilder) -> (built: Result<
    reqwest::Client,
    reqwest::Error,
>) {
    builder.build()
}

/// Calls `reqwest::Client::post`, which starts a `POST` request to `url`.
/// The builder depends on the transport and the URL alone; nothing is
/// claimed of what it holds.
#[verifier::external_body]
pub(crate) fn post(client: &reqwest::Client, url: &str) -> (builder: reqwest::RequestBuilder)
    ensures
        builder == posted(*client, url@),
{
    client.post(url)
}

/// Calls `reqwest::Client::request`, which starts a request to `url` with
/// the given method. The builder depends on the transport, the method and
/// the URL alone; nothing is claimed of what it holds.
#[verifier::external_body]
pub(crate) fn request(client: &reqwest::Client, method: reqwest::Method, url: &str) -> (builder:
    reqwest::RequestBuilder)
    ensures
        builder == started(*client, method, url@),
{
    client.request(method, url)
}

/// Calls `reqwest::RequestBuilder::basic_auth` with a user name and a
/// password, which adds HTTP Basic authentication. The new builder depends
/// on the old one, the user name and the password alone; nothing is claimed
/// of what it holds.
#[verifier::external_body]
pub(crate) fn basic_auth(builder: reqwest::RequestBuilder, username: &str, password: &str) -> (with:
    reqwest::RequestBuilder)
    ensures
        with == with_basic(builder, username@, password@),
{
    builder.basic_auth(username, Some(password))
}

/// Calls `reqwest::RequestBuilder::form` with one field, which sets a
/// URL-encoded form body. The new builder depends on the old one, the field
/// and the value alone; nothing is claimed of what it holds.
#[verifier::external_body]
pub(crate) fn form(builder: reqwest::RequestBuilder, field: &str, value: &str) -> (with:
    reqwest::RequestBuilder)
    ensures
        with == with_form(builder, field@, value@),
{
    builder.form(&[(field, value)])
}

/// Calls `reqwest::RequestBuilder::bearer_auth`, which adds the header
/// `Authorization: Bearer` with the token. The new builder depends on the
/// old one and the token alone; nothing is claimed of what it holds.
#[verifier::external_body]
pub(crate) fn bearer_auth(builder: reqwest::RequestBuilder, token: &str) -> (with:
    reqwest::RequestBuilder)
    ensures
        with == with_bearer(builder, token@),
{
    builder.bearer_auth(token)
}

/// Calls `reqwest::Error::is_decode`, which tells whether the error arose
/// while decoding a response body. The answer depends on the error alone;
/// nothing is claimed of which errors it holds for.
#[verifier::external_body]
pub(crate) fn is_decode(error: &reqwest::Error) -> (decode: bool)
    ensures
        decode == decode_flag(*error),
{
    error.is_decode()
}

} // verus!
