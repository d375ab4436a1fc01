//! The authorization-code flow with proof key for code exchange: the code
//! verifier and its challenge, the address to which the user is sent, and the
//! form that exchanges the code for a token.

use base64::engine::general_purpose::URL_SAFE_NO_PAD;
use base64::Engine;
use rand::distributions::{Alphanumeric, DistString};
use reqwest::Url;
use sha2::{Digest, Sha256};
use vstd::prelude::*;
use vstd::string::*;

verus! {

/// `url::ParseError`, the reason for which a text is no URL. Nothing is
/// known of its content.
#[verifier::external_type_specification]
#[verifier::external_body]
pub struct ExUrlParseError(url::ParseError);

/// `base64::DecodeError`, the reason for which a text is no base64. Nothing
/// is known of its content.
#[verifier::external_type_specification]
#[verifier::external_body]
pub struct ExBase64DecodeError(base64::DecodeError);

/// What can go wrong in the flow.
#[derive(Debug)]
pub enum OAuthError {
    HttpError(reqwest::Error),
    UrlParseError(url::ParseError),
    Base64DecodeError(base64::DecodeError),
    Other(String),
}

impl From<reqwest::Error> for OAuthError {
    fn from(err: reqwest::Error) -> (e: OAuthError) {
        OAuthError::HttpError(err)
    }
}

impl vstd::std_specs::convert::FromSpecImpl<reqwest::Error> for OAuthError {
    open spec fn obeys_from_spec() -> bool {
        true
    }

    open spec fn from_spec(err: reqwest::Error) -> OAuthError {
        OAuthError::HttpError(err)
    }
}

impl From<url::ParseError> for OAuthError {
    fn from(err: url::ParseError) -> (e: OAuthError) {
        OAuthError::UrlParseError(err)
    }
}

impl vstd::std_specs::convert::FromSpecImpl<url::ParseError> for OAuthError {
    open spec fn obeys_from_spec() -> bool {
        true
    }

    open spec fn from_spec(err: url::ParseError) -> OAuthError {
        OAuthError::UrlParseError(err)
    }
}

impl From<base64::DecodeError> for OAuthError {
    fn from(err: base64::DecodeError) -> (e: OAuthError) {
        OAuthError::Base64DecodeError(err)
    }
}

impl vstd::std_specs::convert::FromSpecImpl<base64::DecodeError> for OAuthError {
    open spec fn obeys_from_spec() -> bool {
        true
    }

    open spec fn from_spec(err: base64::DecodeError) -> OAuthError {
        OAuthError::Base64DecodeError(err)
    }
}

/// What the token endpoint answers when it exchanges an authorization code.
#[derive(Debug)]
pub struct AccessTokenResponse {
    pub access_token: String,
    pub token_type: String,
    pub scope: String,
    pub expires_in: usize,
    pub refresh_token: Option<String>,
}

/// The length of a code verifier, the longest that the flow allows.
pub const CODE_VERIFIER_LEN: usize = 128;

/// Whether `c` is an ASCII letter or digit.
pub open spec fn is_ascii_alphanumeric(c: char) -> bool {
    let n = c as u32;
    48 <= n <= 57 || 65 <= n <= 90 || 97 <= n <= 122
}

/// The SHA-256 digest of `data`.
pub uninterp spec fn sha256_digest(data: Seq<u8>) -> Seq<u8>;

/// `data` in base64 with the URL-safe alphabet and without padding.
pub uninterp spec fn base64_url_unpadded(data: Seq<u8>) -> Seq<char>;

/// The address `base` with `pairs` appended to its query in the encoding of
/// forms, as the url crate writes it; nothing where `base` is no absolute
/// URL.
pub uninterp spec fn url_with_query(base: Seq<char>, pairs: Seq<(Seq<char>, Seq<char>)>) -> Option<
    Seq<char>,
>;

/// Pairs of strings as contracts see them.
pub open spec fn pair_texts(pairs: Seq<(String, String)>) -> Seq<(Seq<char>, Seq<char>)> {
    pairs.map_values(|p: (String, String)| (p.0@, p.1@))
}

/// Calls `sample_string` of rand's distribution `Alphanumeric` with
/// `thread_rng`: a string of `len` characters, each an ASCII letter or
/// digit. Which ones is chance.
#[verifier::external_body]
fn random_alphanumeric(len: usize) -> (s: String)
    ensures
        s@.len() == len,
        forall|i: int| 0 <= i < s@.len() ==> is_ascii_alphanumeric(#[trigger] s@[i]),
{
    Alphanumeric.sample_string(&mut rand::thread_rng(), len)
}

/// Calls `Sha256::digest` of the sha2 crate. `sha256_digest` names the
/// result, which is 32 bytes long.
#[verifier::external_body]
fn sha256(data: &[u8]) -> (digest: Vec<u8>)
    ensures
        digest@ == sha256_digest(data@),
        digest@.len() == 32,
{
    Sha256::digest(data).to_vec()
}

/// Calls `encode` of the base64 crate's engine `URL_SAFE_NO_PAD`.
/// `base64_url_unpadded` names the result. The crate panics where the length
/// of the text would not fit a `usize`.
#[verifier::external_body]
fn encode_base64_url(data: &[u8]) -> (text: String)
    requires
        data@.len() <= usize::MAX / 2,
    ensures
        text@ == base64_url_unpadded(data@),
{
    URL_SAFE_NO_PAD.encode(data)
}

/// Calls `Url::parse_with_params` of the url crate, which parses `base` and
/// appends each pair to the query, and writes the URL out. `url_with_query`
/// names the result.
#[verifier::external_body]
fn build_url(base: &str, pairs: &Vec<(String, String)>) -> (r: Result<String, url::ParseError>)
    ensures
        match r {
            Ok(text) => url_with_query(base@, pair_texts(pairs@)) == Some(text@),
            Err(_) => url_with_query(base@, pair_texts(pairs@)) is None,
        },
{
    Ok(Url::parse_with_params(base, pairs)?.to_string())
}

/// A client of the flow as contracts see it.
pub struct OAuthState {
    pub client_id: Seq<char>,
    pub redirect_uri: Seq<char>,
    pub scope: Seq<char>,
    pub code_verifier: Seq<char>,
}

impl OAuthState {
    /// The challenge that belongs to the code verifier: the SHA-256 digest
    /// of its bytes, in URL-safe base64 without padding.
    pub open spec fn code_challenge(self) -> Seq<char> {
        base64_url_unpadded(sha256_digest(vstd::utf8::encode_utf8(self.code_verifier)))
    }

    /// The parameters of the address to which the user is sent.
    pub open spec fn authorize_pairs(self) -> Seq<(Seq<char>, Seq<char>)> {
        seq![
            ("response_type"@, "code"@),
            ("client_id"@, self.client_id),
            ("redirect_uri"@, self.redirect_uri),
            ("scope"@, self.scope),
            ("code_challenge_method"@, "S256"@),
            ("code_challenge"@, self.code_challenge()),
        ]
    }

    /// The form that exchanges `code` for a token.
    pub open spec fn exchange_pairs(self, code: Seq<char>) -> Seq<(Seq<char>, Seq<char>)> {
        seq![
            ("client_id"@, self.client_id),
            ("grant_type"@, "authorization_code"@),
            ("code"@, code),
            ("redirect_uri"@, self.redirect_uri),
            ("code_verifier"@, self.code_verifier),
        ]
    }
}

/// The client side of the flow for one application.
pub struct SpotifyOAuth {
    client_id: String,
    redirect_uri: String,
    scope: String,
    code_verifier: String,
}

impl View for SpotifyOAuth {
    type V = OAuthState;

    closed spec fn view(&self) -> OAuthState {
        OAuthState {
            client_id: self.client_id@,
            redirect_uri: self.redirect_uri@,
            scope: self.scope@,
            code_verifier: self.code_verifier@,
        }
    }
}

fn pair(name: &str, value: &str) -> (p: (String, String))
    ensures
        p.0@ == name@,
        p.1@ == value@,
{
    (String::from_str(name), String::from_str(value))
}

impl SpotifyOAuth {
    /// A client with a code verifier of its own: 128 letters and digits
    /// drawn at random.
    pub fn new(client_id: String, redirect_uri: String, scope: String) -> (oauth: Self)
        ensures
            oauth@.client_id == client_id@,
            oauth@.redirect_uri == redirect_uri@,
            oauth@.scope == scope@,
            oauth@.code_verifier.len() == CODE_VERIFIER_LEN,
            forall|i: int|
                0 <= i < oauth@.code_verifier.len() ==> is_ascii_alphanumeric(
                    #[trigger] oauth@.code_verifier[i],
                ),
    {
        let code_verifier = Self::generate_code_verifier();
        SpotifyOAuth { client_id, redirect_uri, scope, code_verifier }
    }

    /// A code verifier: 128 letters and digits drawn at random.
    pub fn generate_code_verifier() -> (verifier: String)
        ensures
            verifier@.len() == CODE_VERIFIER_LEN,
            forall|i: int|
                0 <= i < verifier@.len() ==> is_ascii_alphanumeric(#[trigger] verifier@[i]),
    {
        random_alphanumeric(CODE_VERIFIER_LEN)
    }

    /// The code verifier of this client.
    pub fn code_verifier(&self) -> (verifier: &String)
        ensures
            verifier@ == self@.code_verifier,
    {
        &self.code_verifier
    }

    /// The code challenge that belongs to the code verifier.
    pub fn generate_code_challenge(&self) -> (r: Result<String, OAuthError>)
        ensures
            r is Ok,
            r->Ok_0@ == self@.code_challenge(),
    {
        let digest = sha256(self.code_verifier.as_str().as_bytes());
        Ok(encode_base64_url(digest.as_slice()))
    }

    /// The address to which the user is sent to grant access. It fails only
    /// where the url crate takes the authorization endpoint for no URL.
    pub fn get_authorize_url(&self) -> (r: Result<String, OAuthError>)
        ensures
            match r {
                Ok(text) => url_with_query(
                    "https://accounts.spotify.com/authorize"@,
                    self@.authorize_pairs(),
                ) == Some(text@),
                Err(e) => e is UrlParseError && url_with_query(
                    "https://accounts.spotify.com/authorize"@,
                    self@.authorize_pairs(),
                ) is None,
            },
    {
        let challenge = match self.generate_code_challenge() {
            Ok(c) => c,
            Err(e) => {
                return Err(e);
            },
        };
        let mut pairs: Vec<(String, String)> = Vec::new();
        pairs.push(pair("response_type", "code"));
        pairs.push(pair("client_id", self.client_id.as_str()));
        pairs.push(pair("redirect_uri", self.redirect_uri.as_str()));
        pairs.push(pair("scope", self.scope.as_str()));
        pairs.push(pair("code_challenge_method", "S256"));
        pairs.push(pair("code_challenge", challenge.as_str()));
        assert(pair_texts(pairs@) =~= self@.authorize_pairs());
        match build_url("https://accounts.spotify.com/authorize", &pairs) {
            Ok(text) => Ok(text),
            Err(e) => Err(OAuthError::UrlParseError(e)),
        }
    }

    /// The form to post to the token endpoint to exchange `code` for a
    /// token.
    pub fn request_access_token(&self, code: &str) -> (form: Vec<(String, String)>)
        ensures
            pair_texts(form@) == self@.exchange_pairs(code@),
    {
        let mut form: Vec<(String, String)> = Vec::new();
        form.push(pair("client_id", self.client_id.as_str()));
        form.push(pair("grant_type", "authorization_code"));
        form.push(pair("code", code));
        form.push(pair("redirect_uri", self.redirect_uri.as_str()));
        form.push(pair("code_verifier", self.code_verifier.as_str()));
        form
    }
}

} // verus!
