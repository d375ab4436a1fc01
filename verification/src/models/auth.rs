//! The client-credentials exchange with the authorization server.

use vstd::prelude::*;

verus! {

/// The form that asks the authorization server for a token.
#[derive(Debug, Clone)]
pub struct ClientCredsAuthRequest {
    pub grant_type: String,
    pub client_id: String,
    pub client_secret: String,
}

/// The form as contracts see it.
pub struct AuthForm {
    pub grant_type: Seq<char>,
    pub client_id: Seq<char>,
    pub client_secret: Seq<char>,
}

impl View for ClientCredsAuthRequest {
    type V = AuthForm;

    open spec fn view(&self) -> AuthForm {
        AuthForm {
            grant_type: self.grant_type@,
            client_id: self.client_id@,
            client_secret: self.client_secret@,
        }
    }
}

/// What the authorization server answers when it grants a token.
#[derive(Debug, Clone)]
pub struct ClientCredsAuthResponse {
    pub access_token: String,
    pub token_type: String,
    pub expires_in: u64,
}

} // verus!
