use vstd::prelude::*;
use crate::error::SdkError;

verus! {

/// What a token record holds, as plain values.
pub struct TokenView {
    pub access_token: Seq<char>,
    pub token_type: Seq<char>,
    pub expires_in: u64,
    pub scope: Seq<char>,
}

impl TokenView {
    /// A record is usable when its access token is not empty.
    pub open spec fn wf(self) -> bool {
        self.access_token.len() > 0
    }
}

/// One token record, as the token endpoint issued it. Only the access token
/// is ever used; the other three fields are kept as they came. A record
/// cannot be printed or serialised, and its access token cannot be read back.
pub struct TokenResponse {
    access_token: String,
    token_type: String,
    expires_in: u64,
    scope: String,
}

impl View for TokenResponse {
    type V = TokenView;

    closed spec fn view(&self) -> TokenView {
        TokenView {
            access_token: self.access_token@,
            token_type: self.token_type@,
            expires_in: self.expires_in,
            scope: self.scope@,
        }
    }
}

impl TokenResponse {
    #[verifier::type_invariant]
    spec fn inv(self) -> bool {
        self.access_token@.len() > 0
    }

    /// Makes a record from the four fields of a token response. A response
    /// with an empty access token is no token record.
    pub fn new(access_token: &str, token_type: &str, expires_in: u64, scope: &str) -> (made: Result<
        TokenResponse,
        SdkError,
    >)
        ensures
            access_token@.len() == 0 <==> made is Err,
            made is Err ==> made->Err_0 == SdkError::DeserializationError,
            made is Ok ==> made->Ok_0@ == (TokenView {
                access_token: access_token@,
                token_type: token_type@,
                expires_in,
                scope: scope@,
            }),
    {
        if access_token.is_empty() {
            Err(SdkError::DeserializationError)
        } else {
            Ok(
                TokenResponse {
                    access_token: access_token.to_owned(),
                    token_type: token_type.to_owned(),
                    expires_in,
                    scope: scope.to_owned(),
                },
            )
        }
    }

    /// The lifetime in seconds that the endpoint announced.
    pub fn expires_in(&self) -> (seconds: u64)
        ensures
            seconds == self@.expires_in,
    {
        self.expires_in
    }

    /// The token type that the endpoint announced.
    pub fn token_type(&self) -> (kind: &str)
        ensures
            kind@ == self@.token_type,
    {
        self.token_type.as_str()
    }

    /// The scope that the endpoint granted.
    pub fn scope(&self) -> (scope: &str)
        ensures
            scope@ == self@.scope,
    {
        self.scope.as_str()
    }

    pub(crate) fn access_token(&self) -> (token: &str)
        ensures
            token@ == self@.access_token,
            token@.len() > 0,
    {
        proof {
            use_type_invariant(self);
        }
        self.access_token.as_str()
    }
}

} // verus!
