//! Signing in: a token is had for an email and a password.

use crate::client::{ClientView, Method, Request, RideWithGpsClient};
use crate::error::Error;
use crate::response::Reply;
use crate::users::User;
use vstd::prelude::*;

verus! {

/// What is sent to have a token issued.
#[derive(Debug, Clone)]
pub struct CreateAuthTokenRequest {
    /// User email
    pub email: String,
    /// User password
    pub password: String,
}

/// A token, as the service issues it.
#[derive(Debug, Clone)]
pub struct AuthToken {
    /// The authentication token
    pub auth_token: String,
    /// User ID
    pub user_id: Option<u64>,
    /// User object (included in the response)
    pub user: Option<User>,
}

impl RideWithGpsClient {
    /// Prepares the request that has a token issued for an email and a password. The
    /// response is the token itself. The path of this one request has no `.json`.
    pub fn create_auth_token(&self, email: &str, password: &str) -> (r: Result<
        Request<CreateAuthTokenRequest>,
        Error,
    >)
        ensures
            match r {
                Ok(request) => {
                    &&& self@.prepared(
                        Method::Post,
                        "/api/v1/auth_tokens"@,
                        request.body,
                        Reply::Bare,
                        r,
                    )
                    &&& request.body matches Some(body)
                    &&& body.email@ == email@
                    &&& body.password@ == password@
                },
                Err(e) => self@.refusal("/api/v1/auth_tokens"@, e@),
            },
    {
        let body = CreateAuthTokenRequest { email: email.to_owned(), password: password.to_owned() };
        self.post("/api/v1/auth_tokens", body, Reply::Bare)
    }

    /// Finishes signing in: with the token that was issued, the client holds it from
    /// now on; with the error of the exchange, that error is handed on.
    pub fn with_credentials(self, issued: Result<AuthToken, Error>) -> (r: Result<Self, Error>)
        ensures
            match issued {
                Ok(token) => r matches Ok(client) && client@ == (ClientView {
                    auth_token: Some(token.auth_token@),
                    ..self@
                }),
                Err(e) => r == Err::<Self, Error>(e),
            },
    {
        match issued {
            Ok(token) => {
                let mut client = self;
                client.set_auth_token(token.auth_token.as_str());
                Ok(client)
            },
            Err(e) => Err(e),
        }
    }
}

} // verus!
