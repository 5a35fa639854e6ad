use vstd::prelude::*;
use crate::error::{FetchFailure, SdkError};
use crate::token::{TokenResponse, TokenView};
use crate::transport::decode_flag;

verus! {

/// The path of the token endpoint below the authorization base URL.
pub open spec fn token_path() -> Seq<char> {
    "/oauth/token"@
}

/// The name of the one form field of a token request.
pub open spec fn grant_field() -> Seq<char> {
    "grant_type"@
}

/// The value of the one form field of a token request.
pub open spec fn grant_value() -> Seq<char> {
    "client_credentials"@
}

/// A token request as plain values: a `POST` to `url` with HTTP Basic
/// authentication and a form body of one field.
pub struct TokenRequestView {
    pub url: Seq<char>,
    pub username: Seq<char>,
    pub password: Seq<char>,
    pub form: Seq<(Seq<char>, Seq<char>)>,
}

/// The request that fetches a token. Its parts cannot be read back in
/// executable code: they leave the library only inside a request builder.
pub struct TokenRequest {
    url: String,
    username: String,
    password: String,
    field: String,
    value: String,
}

impl View for TokenRequest {
    type V = TokenRequestView;

    closed spec fn view(&self) -> TokenRequestView {
        TokenRequestView {
            url: self.url@,
            username: self.username@,
            password: self.password@,
            form: seq![(self.field@, self.value@)],
        }
    }
}

/// An authorized request as plain values: `method` on `url`, with the header
/// `Authorization: Bearer` followed by `bearer_token`.
pub struct AuthorizedRequestView {
    pub method: reqwest::Method,
    pub url: Seq<char>,
    pub bearer_token: Seq<char>,
}

/// A request to the API that carries the cached token. The token cannot be
/// read back in executable code: it leaves the library only inside a request
/// builder.
pub struct AuthorizedRequest {
    method: reqwest::Method,
    url: String,
    token: String,
}

impl View for AuthorizedRequest {
    type V = AuthorizedRequestView;

    closed spec fn view(&self) -> AuthorizedRequestView {
        AuthorizedRequestView { method: self.method, url: self.url@, bearer_token: self.token@ }
    }
}

impl AuthorizedRequest {
    pub(crate) fn new(method: reqwest::Method, url: String, token: String) -> (request: Self)
        ensures
            request@ == (AuthorizedRequestView { method, url: url@, bearer_token: token@ }),
    {
        AuthorizedRequest { method, url, token }
    }

    pub(crate) fn into_parts(self) -> (parts: (reqwest::Method, String, String))
        ensures
            parts.0 == self@.method,
            parts.1@ == self@.url,
            parts.2@ == self@.bearer_token,
    {
        (self.method, self.url, self.token)
    }

    /// The address the request goes to.
    pub fn url(&self) -> (url: &str)
        ensures
            url@ == self@.url,
    {
        self.url.as_str()
    }

    /// The method of the request.
    pub fn method(&self) -> (method: &reqwest::Method)
        ensures
            *method == self@.method,
    {
        &self.method
    }
}

impl TokenRequest {
    pub(crate) fn new(url: String, username: String, password: String) -> (request: Self)
        ensures
            request@ == (TokenRequestView {
                url: url@,
                username: username@,
                password: password@,
                form: seq![(grant_field(), grant_value())],
            }),
    {
        TokenRequest {
            url,
            username,
            password,
            field: "grant_type".to_owned(),
            value: "client_credentials".to_owned(),
        }
    }

    pub(crate) fn username(&self) -> (username: &str)
        ensures
            username@ == self@.username,
    {
        self.username.as_str()
    }

    pub(crate) fn password(&self) -> (password: &str)
        ensures
            password@ == self@.password,
    {
        self.password.as_str()
    }

    pub(crate) fn form_field(&self) -> (field: &str)
        ensures
            self@.form.len() == 1,
            field@ == self@.form[0].0,
    {
        self.field.as_str()
    }

    pub(crate) fn form_value(&self) -> (value: &str)
        ensures
            self@.form.len() == 1,
            value@ == self@.form[0].1,
    {
        self.value.as_str()
    }

    /// The address of the token endpoint.
    pub fn url(&self) -> (url: &str)
        ensures
            url@ == self@.url,
    {
        self.url.as_str()
    }
}

/// What the driver of a call reports to the context.
pub enum Event {
    /// A caller asks for a request.
    Call,
    /// The token endpoint answered with this record.
    TokenFetched(TokenResponse),
    /// The token fetch failed.
    FetchFailed(FetchFailure),
}

/// An event as plain values.
pub enum EventView {
    Call,
    TokenFetched(TokenView),
    FetchFailed(FetchFailure),
}

impl View for Event {
    type V = EventView;

    open spec fn view(&self) -> EventView {
        match self {
            Event::Call => EventView::Call,
            Event::TokenFetched(token) => EventView::TokenFetched(token@),
            Event::FetchFailed(failure) => EventView::FetchFailed(*failure),
        }
    }
}

impl Event {
    /// The event for a token response whose body held these four fields: a
    /// fetched token, or a decoding failure where the access token is empty.
    pub fn token_record(access_token: &str, token_type: &str, expires_in: u64, scope: &str) -> (event:
        Event)
        ensures
            event@ == (if access_token@.len() == 0 {
                EventView::FetchFailed(FetchFailure::Decode)
            } else {
                EventView::TokenFetched(
                    TokenView {
                        access_token: access_token@,
                        token_type: token_type@,
                        expires_in,
                        scope: scope@,
                    },
                )
            }),
    {
        match TokenResponse::new(access_token, token_type, expires_in, scope) {
            Ok(token) => Event::TokenFetched(token),
            Err(_) => Event::FetchFailed(FetchFailure::Decode),
        }
    }

    /// The event for a token fetch that the transport gave up with `error`:
    /// a decoding failure for what the transport flags as a decoding error,
    /// a transport failure for any other. See `FetchFailure::classify` for
    /// which errors to hand over.
    pub fn fetch_error(error: &reqwest::Error) -> (event: Event)
        ensures
            event@ == EventView::FetchFailed(
                if decode_flag(*error) {
                    FetchFailure::Decode
                } else {
                    FetchFailure::Transport
                },
            ),
    {
        Event::FetchFailed(FetchFailure::classify(error))
    }
}

/// What the driver of a call has to do next.
pub enum Action {
    /// Send this token request and report how it ended.
    FetchToken(TokenRequest),
    /// Hand this request to the caller: the call has succeeded.
    Send(AuthorizedRequest),
    /// Hand this error to the caller: the call has failed.
    Fail(SdkError),
}

/// An action as plain values.
pub enum ActionView {
    FetchToken(TokenRequestView),
    Send(AuthorizedRequestView),
    Fail(SdkError),
}

impl View for Action {
    type V = ActionView;

    open spec fn view(&self) -> ActionView {
        match self {
            Action::FetchToken(request) => ActionView::FetchToken(request@),
            Action::Send(request) => ActionView::Send(request@),
            Action::Fail(error) => ActionView::Fail(*error),
        }
    }
}

} // verus!
