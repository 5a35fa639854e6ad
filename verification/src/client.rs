use vstd::prelude::*;
use vstd::string::*;
use crate::error::SdkError;
use crate::plan::{
    grant_field, grant_value, token_path, Action, ActionView, AuthorizedRequest,
    AuthorizedRequestView, Event, EventView, TokenRequest, TokenRequestView,
};
use crate::token::{TokenResponse, TokenView};
use crate::transport;
use crate::transport::{posted, started, with_basic, with_bearer, with_form};

verus! {

/// A context as plain values. The transport handle is not part of it.
pub struct ContextView {
    pub auth_url: Seq<char>,
    pub api_url: Seq<char>,
    pub client_id: Seq<char>,
    pub client_secret: Seq<char>,
    pub token: Option<TokenView>,
}

impl ContextView {
    /// A cached token is never empty.
    pub open spec fn wf(self) -> bool {
        self.token is Some ==> self.token->Some_0.wf()
    }

    /// The request that fetches a token for this context.
    pub open spec fn token_request(self) -> TokenRequestView {
        TokenRequestView {
            url: self.auth_url + token_path(),
            username: self.client_id,
            password: self.client_secret,
            form: seq![(grant_field(), grant_value())],
        }
    }

    /// The request to `path` that carries `token`.
    pub open spec fn authorized(
        self,
        method: reqwest::Method,
        path: Seq<char>,
        token: TokenView,
    ) -> AuthorizedRequestView {
        AuthorizedRequestView {
            method,
            url: self.api_url + path,
            bearer_token: token.access_token,
        }
    }

    /// This context with `token` in its cache.
    pub open spec fn with_token(self, token: TokenView) -> ContextView {
        ContextView { token: Some(token), ..self }
    }

    /// One step of a call for `method` and `path`: the context after the
    /// event, and what the driver has to do next.
    pub open spec fn step(self, method: reqwest::Method, path: Seq<char>, event: EventView) -> (
        ContextView,
        ActionView,
    ) {
        match event {
            EventView::Call => match self.token {
                Some(token) => (self, ActionView::Send(self.authorized(method, path, token))),
                None => (self, ActionView::FetchToken(self.token_request())),
            },
            EventView::TokenFetched(token) => (
                self.with_token(token),
                ActionView::Send(self.authorized(method, path, token)),
            ),
            EventView::FetchFailed(failure) => (self, ActionView::Fail(failure.error())),
        }
    }
}

struct ClientCredentials {
    client_id: String,
    client_secret: String,
}

/// The long-lived state of an authenticated client: two base URLs, the
/// client's credentials, the transport handle and the token cache.
///
/// The cache starts empty, is filled by the first token that is fetched and
/// is never emptied again; the lifetime that a token announces is kept but
/// not acted on. The context cannot be printed or serialised, and neither
/// the client secret nor the access token can be read back from it.
pub struct ClientContext {
    auth_url: String,
    api_url: String,
    current_token: Option<TokenResponse>,
    client: reqwest::Client,
    credentials: ClientCredentials,
}

impl View for ClientContext {
    type V = ContextView;

    closed spec fn view(&self) -> ContextView {
        ContextView {
            auth_url: self.auth_url@,
            api_url: self.api_url@,
            client_id: self.credentials.client_id@,
            client_secret: self.credentials.client_secret@,
            token: match self.current_token {
                Some(token) => Some(token@),
                None => None,
            },
        }
    }
}

impl ClientContext {
    #[verifier::type_invariant]
    spec fn inv(self) -> bool {
        self@.wf()
    }

    /// The transport handle of this context.
    pub closed spec fn transport(&self) -> reqwest::Client {
        self.client
    }

    /// A context with an empty cache around a transport that is already
    /// built. The URLs and credentials are taken as they are: a malformed
    /// URL shows only when a request to it is built.
    pub fn with_transport(
        auth_url: &str,
        api_url: &str,
        client_id: &str,
        client_secret: &str,
        client: reqwest::Client,
    ) -> (context: Self)
        ensures
            context@ == (ContextView {
                auth_url: auth_url@,
                api_url: api_url@,
                client_id: client_id@,
                client_secret: client_secret@,
                token: None,
            }),
            context.transport() == client,
    {
        ClientContext {
            credentials: ClientCredentials {
                client_id: client_id.to_owned(),
                client_secret: client_secret.to_owned(),
            },
            auth_url: auth_url.to_owned(),
            api_url: api_url.to_owned(),
            current_token: None,
            client,
        }
    }

    /// The context for the outcome of building a transport: a context with
    /// an empty cache around the transport that was built, or
    /// `TransportBuildFailed` where none was.
    pub fn from_built(
        auth_url: &str,
        api_url: &str,
        client_id: &str,
        client_secret: &str,
        built: Result<reqwest::Client, reqwest::Error>,
    ) -> (made: Result<Self, SdkError>)
        ensures
            made is Ok <==> built is Ok,
            made is Err ==> made->Err_0 == SdkError::TransportBuildFailed,
            made is Ok ==> made->Ok_0.transport() == built->Ok_0 && made->Ok_0@ == (ContextView {
                auth_url: auth_url@,
                api_url: api_url@,
                client_id: client_id@,
                client_secret: client_secret@,
                token: None,
            }),
    {
        match built {
            Ok(client) => Ok(
                Self::with_transport(auth_url, api_url, client_id, client_secret, client),
            ),
            Err(_) => Err(SdkError::TransportBuildFailed),
        }
    }

    /// Builds the transport from `client` and makes a context with an empty
    /// cache around it. Whether the configuration is accepted is for the
    /// transport to say; where it is not, the error is `TransportBuildFailed`.
    pub fn from_client(
        auth_url: &str,
        api_url: &str,
        client_id: &str,
        client_secret: &str,
        client: reqwest::ClientBuilder,
    ) -> (made: Result<Self, SdkError>)
        ensures
            made is Err ==> made->Err_0 == SdkError::TransportBuildFailed,
            made is Ok ==> made->Ok_0@ == (ContextView {
                auth_url: auth_url@,
                api_url: api_url@,
                client_id: client_id@,
                client_secret: client_secret@,
                token: None,
            }),
    {
        Self::from_built(
            auth_url,
            api_url,
            client_id,
            client_secret,
            transport::build_client(client),
        )
    }

    /// Whether a token is cached.
    pub fn has_token(&self) -> (cached: bool)
        ensures
            cached == (self@.token is Some),
            self@.wf(),
    {
        proof {
            use_type_invariant(self);
        }
        self.current_token.is_some()
    }

    fn token_request(&self) -> (request: TokenRequest)
        ensures
            request@ == self@.token_request(),
    {
        TokenRequest::new(
            self.auth_url.clone().concat("/oauth/token"),
            self.credentials.client_id.clone(),
            self.credentials.client_secret.clone(),
        )
    }

    fn authorized(&self, method: reqwest::Method, path: &str, token: &TokenResponse) -> (request:
        AuthorizedRequest)
        ensures
            request@ == self@.authorized(method, path@, token@),
            token@.wf(),
    {
        AuthorizedRequest::new(
            method,
            self.api_url.clone().concat(path),
            token.access_token().to_owned(),
        )
    }

    /// One step of a call for `method` and `path`. A `Call` is answered from
    /// the cache, or by asking for a token fetch where the cache is empty. A
    /// fetched token replaces whatever the cache held and the call succeeds
    /// with it. A failed fetch fails the call and leaves the cache as it was.
    /// Nothing but the cache ever changes.
    ///
    /// The exclusive borrow is the only guard of the cache. Two calls that
    /// both saw it empty may each fetch a token; each answer is stored as it
    /// arrives, so the later one stays.
    pub fn request(&mut self, method: reqwest::Method, path: &str, event: Event) -> (action: Action)
        ensures
            (final(self)@, action@) == old(self)@.step(method, path@, event@),
            final(self).transport() == old(self).transport(),
            old(self)@.wf(),
            final(self)@.wf(),
    {
        proof {
            use_type_invariant(&*self);
        }
        match event {
            Event::Call => match &self.current_token {
                Some(token) => Action::Send(self.authorized(method, path, token)),
                None => Action::FetchToken(self.token_request()),
            },
            Event::TokenFetched(token) => {
                let request = self.authorized(method, path, &token);
                self.current_token = Some(token);
                Action::Send(request)
            },
            Event::FetchFailed(failure) => Action::Fail(failure.to_error()),
        }
    }

    /// Hands a token request to the transport: a `POST` to its URL on this
    /// context's transport, then its Basic credentials, then its form body.
    /// The builder that comes back is what the transport makes of exactly
    /// these; what it holds is the transport's affair.
    pub fn token_request_builder(&self, request: &TokenRequest) -> (builder:
        reqwest::RequestBuilder)
        ensures
            request@.form.len() == 1,
            builder == with_form(
                with_basic(
                    posted(self.transport(), request@.url),
                    request@.username,
                    request@.password,
                ),
                request@.form[0].0,
                request@.form[0].1,
            ),
    {
        let started = transport::post(&self.client, request.url());
        let signed = transport::basic_auth(started, request.username(), request.password());
        transport::form(signed, request.form_field(), request.form_value())
    }

    /// Hands an authorized request to the transport: its method on its URL
    /// on this context's transport, then its token as bearer authentication.
    /// The builder that comes back is what the transport makes of exactly
    /// these; what it holds is the transport's affair. The caller adds
    /// headers and a body and sends it.
    pub fn request_builder(&self, request: AuthorizedRequest) -> (builder: reqwest::RequestBuilder)
        ensures
            builder == with_bearer(
                started(self.transport(), request@.method, request@.url),
                request@.bearer_token,
            ),
    {
        let (method, url, token) = request.into_parts();
        let started = transport::request(&self.client, method, url.as_str());
        transport::bearer_auth(started, token.as_str())
    }
}

} // verus!
