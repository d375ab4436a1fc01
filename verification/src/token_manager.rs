//! The lifecycle of the bearer token: when it is valid, when a new one has to
//! be asked for, and what a reply of the authorization server does to it.
//!
//! The manager sends nothing. It says what to send, and takes what came back.

use crate::cache::duration_nanos;
use crate::error::{ErrorView, RustyError};
use crate::models::auth::{AuthForm, ClientCredsAuthRequest, ClientCredsAuthResponse};
use std::time::{Duration, SystemTime, SystemTimeError, UNIX_EPOCH};
use vstd::prelude::*;
use vstd::string::*;

verus! {

/// `std::time::SystemTime`, a reading of the system clock. Nothing is known
/// of its content.
#[verifier::external_type_specification]
#[verifier::external_body]
pub struct ExSystemTime(SystemTime);

/// `std::time::SystemTimeError`, the error of a clock that stands before the
/// instant it is held against.
#[verifier::external_type_specification]
#[verifier::external_body]
pub struct ExSystemTimeError(SystemTimeError);

/// `SystemTime::now` of std: the present reading of the system clock.
/// Nothing is claimed of it.
pub assume_specification[ SystemTime::now ]() -> SystemTime;

/// `Duration::as_secs` of std: the whole seconds that the duration holds,
/// the part of a second left off.
pub assume_specification[ Duration::as_secs ](d: &Duration) -> (secs: u64)
    ensures
        secs == duration_nanos(*d) / 1_000_000_000,
;

/// Calls `SystemTime::duration_since` with the Unix epoch: how far `t` lies
/// after it, or the error of a clock that stands before it.
#[verifier::external_body]
fn since_unix_epoch(t: &SystemTime) -> Result<Duration, SystemTimeError> {
    t.duration_since(UNIX_EPOCH)
}

/// The seconds since the Unix epoch that a reading of the system clock
/// stands for: the whole seconds of its distance from the epoch, and 0 for a
/// clock that stands before the epoch.
pub open spec fn epoch_seconds(reading: Result<Duration, SystemTimeError>) -> int {
    match reading {
        Ok(distance) => (duration_nanos(distance) / 1_000_000_000) as int,
        Err(_) => 0,
    }
}

/// The seconds by which a token is taken out of use before the authorization
/// server lets it run out.
pub const EXPIRY_MARGIN_SECS: u64 = 60;

/// The state of a token manager as contracts see it.
pub struct TokenState {
    /// The token in hand, if one was ever granted.
    pub access_token: Option<Seq<char>>,
    /// The instant, in seconds since the Unix epoch, from which the token in
    /// hand counts as invalid: the margin before the server's own deadline.
    pub expires_at: Option<int>,
    pub client_id: Seq<char>,
    pub client_secret: Seq<char>,
}

impl TokenState {
    /// The state of a manager that has not been granted a token yet.
    pub open spec fn fresh(client_id: Seq<char>, client_secret: Seq<char>) -> TokenState {
        TokenState { access_token: None, expires_at: None, client_id, client_secret }
    }

    /// Whether there is a token and `now` is before its adjusted expiry.
    pub open spec fn valid_at(self, now: int) -> bool {
        self.access_token is Some && self.expires_at is Some && now < self.expires_at->0
    }

    /// The state after the server granted `token` at the instant `now`, to
    /// run out `expires_in` seconds later.
    pub open spec fn granted(self, token: Seq<char>, expires_in: int, now: int) -> TokenState {
        TokenState {
            access_token: Some(token),
            expires_at: Some(now + expires_in - EXPIRY_MARGIN_SECS),
            ..self
        }
    }

    /// The form that asks for a token for these credentials.
    pub open spec fn refresh_form(self) -> AuthForm {
        AuthForm {
            grant_type: "client_credentials"@,
            client_id: self.client_id,
            client_secret: self.client_secret,
        }
    }

    /// Whether a call for a valid token at `now` has to ask the server for a
    /// new one first.
    pub open spec fn must_refresh(self, now: int) -> bool {
        !self.valid_at(now)
    }
}

/// What a caller who wants a valid token does next.
#[derive(Debug)]
pub enum TokenStep {
    /// The token in hand is valid: use it.
    Ready(String),
    /// There is no valid token: post this form to the token endpoint, and
    /// hand the reply to the manager.
    Refresh(ClientCredsAuthRequest),
}

/// Obtains bearer tokens for one pair of client credentials and keeps the
/// latest one until it expires.
pub struct SpotifyTokenManager {
    access_token: Option<String>,
    expires_at: Option<i128>,
    client_id: String,
    client_secret: String,
}

impl View for SpotifyTokenManager {
    type V = TokenState;

    closed spec fn view(&self) -> TokenState {
        TokenState {
            access_token: match self.access_token {
                Some(t) => Some(t@),
                None => None,
            },
            expires_at: match self.expires_at {
                Some(e) => Some(e as int),
                None => None,
            },
            client_id: self.client_id@,
            client_secret: self.client_secret@,
        }
    }
}

/// Whether `step` is what a manager in `state` answers at the instant `now`:
/// its token while that is valid, and the refresh form otherwise.
pub open spec fn is_token_step(step: TokenStep, state: TokenState, now: int) -> bool {
    match step {
        TokenStep::Ready(token) => state.valid_at(now) && state.access_token == Some(token@),
        TokenStep::Refresh(request) => state.must_refresh(now) && request@ == state.refresh_form(),
    }
}

/// Whether an HTTP status is one of success, 200 to 299.
pub open spec fn status_is_success(status: u16) -> bool {
    200 <= status <= 299
}

/// What a reply of the token endpoint means before its body is parsed: the
/// body of a success, or the error that ends the refresh.
pub open spec fn token_reply_outcome(status: u16, body: Result<String, reqwest::Error>) -> Result<
    Seq<char>,
    ErrorView,
> {
    if status_is_success(status) {
        match body {
            Ok(text) => Ok(text@),
            Err(e) => Err(ErrorView::Network(e)),
        }
    } else {
        Err(
            ErrorView::TokenAuthentication(
                match body {
                    Ok(text) => text@,
                    Err(_) => "Unknown error"@,
                },
            ),
        )
    }
}

/// A result as contracts see it.
pub open spec fn outcome_view(out: Result<String, RustyError>) -> Result<Seq<char>, ErrorView> {
    match out {
        Ok(text) => Ok(text@),
        Err(e) => Err(e@),
    }
}

impl SpotifyTokenManager {
    #[verifier::type_invariant]
    spec fn token_has_expiry(self) -> bool {
        self.access_token is Some ==> self.expires_at is Some
    }

    /// A manager for these credentials, without a token.
    pub fn new(client_id: String, client_secret: String) -> (manager: Self)
        ensures
            manager@ == TokenState::fresh(client_id@, client_secret@),
    {
        SpotifyTokenManager { access_token: None, expires_at: None, client_id, client_secret }
    }

    /// Turns a reading of the system clock, as its distance from the Unix
    /// epoch, into seconds: the whole seconds of the distance, and 0 for a
    /// clock that stands before the epoch.
    pub fn seconds_since_epoch(reading: Result<Duration, SystemTimeError>) -> (secs: u64)
        ensures
            secs == epoch_seconds(reading),
    {
        match reading {
            Ok(distance) => distance.as_secs(),
            Err(_) => 0,
        }
    }

    /// The seconds since the Unix epoch on the system clock at this moment:
    /// `seconds_since_epoch` of the present reading. Which reading that is,
    /// the clock decides.
    pub fn unix_now() -> u64 {
        Self::seconds_since_epoch(since_unix_epoch(&SystemTime::now()))
    }

    /// Whether there is a token and `now` is before its adjusted expiry.
    pub fn is_token_valid_at(&self, now: u64) -> (valid: bool)
        ensures
            valid == self@.valid_at(now as int),
    {
        proof {
            use_type_invariant(self);
        }
        match (&self.access_token, self.expires_at) {
            (Some(_), Some(expiry)) => (now as i128) < expiry,
            _ => false,
        }
    }

    /// `is_token_valid_at` at the present instant of the system clock.
    pub fn is_token_valid(&self) -> (valid: bool)
        ensures
            exists|now: int| valid == #[trigger] self@.valid_at(now),
    {
        let now = Self::unix_now();
        self.is_token_valid_at(now)
    }

    /// The form to post to the token endpoint for a new token.
    pub fn request_new_token(&self) -> (request: ClientCredsAuthRequest)
        ensures
            request@ == self@.refresh_form(),
    {
        ClientCredsAuthRequest {
            grant_type: String::from_str("client_credentials"),
            client_id: self.client_id.clone(),
            client_secret: self.client_secret.clone(),
        }
    }

    /// Judges a reply of the token endpoint by its status. A success hands on
    /// its body, to be parsed; a body that could not be read is a network
    /// error. Any other status is a rejection that carries the body as its
    /// message, or "Unknown error" where the body could not be read.
    pub fn check_token_reply(status: u16, body: Result<String, reqwest::Error>) -> (out: Result<
        String,
        RustyError,
    >)
        ensures
            outcome_view(out) == token_reply_outcome(status, body),
    {
        if 200 <= status && status <= 299 {
            match body {
                Ok(text) => Ok(text),
                Err(e) => Err(RustyError::Network(e)),
            }
        } else {
            match body {
                Ok(text) => Err(RustyError::TokenAuthentication(text)),
                Err(_) => Err(RustyError::TokenAuthentication(String::from_str("Unknown error"))),
            }
        }
    }

    /// Takes a token that the server granted at the instant `now`. It counts
    /// as valid until the margin before the end of its lifetime.
    pub fn accept_token_at(&mut self, grant: ClientCredsAuthResponse, now: u64)
        ensures
            final(self)@ == old(self)@.granted(
                grant.access_token@,
                grant.expires_in as int,
                now as int,
            ),
    {
        let expiry: i128 = now as i128 + grant.expires_in as i128 - EXPIRY_MARGIN_SECS as i128;
        self.expires_at = Some(expiry);
        self.access_token = Some(grant.access_token);
    }

    /// `accept_token_at` at the present instant of the system clock.
    pub fn accept_token(&mut self, grant: ClientCredsAuthResponse)
        ensures
            exists|now: int| final(self)@ == #[trigger] old(self)@.granted(
                grant.access_token@,
                grant.expires_in as int,
                now,
            ),
    {
        let now = Self::unix_now();
        self.accept_token_at(grant, now);
    }

    /// The token in hand if it is valid at `now`, and otherwise the form that
    /// asks for a new one. Never both, and the state stays as it is.
    pub fn get_valid_token_at(&self, now: u64) -> (step: TokenStep)
        ensures
            is_token_step(step, self@, now as int),
    {
        if self.is_token_valid_at(now) {
            match &self.access_token {
                Some(token) => TokenStep::Ready(token.clone()),
                None => TokenStep::Refresh(self.request_new_token()),
            }
        } else {
            TokenStep::Refresh(self.request_new_token())
        }
    }

    /// `get_valid_token_at` at the present instant of the system clock.
    pub fn get_valid_token(&self) -> (step: TokenStep)
        ensures
            exists|now: int| #[trigger] is_token_step(step, self@, now),
    {
        let now = Self::unix_now();
        self.get_valid_token_at(now)
    }
}

/// A manager that was never granted a token asks for one, at whatever
/// instant it is called.
pub proof fn lemma_fresh_manager_refreshes(client_id: Seq<char>, client_secret: Seq<char>, now: int)
    ensures
        TokenState::fresh(client_id, client_secret).must_refresh(now),
{
}

/// After a grant at the instant `at`, a call asks for no refresh while the
/// instant is before `at + expires_in - 60`, and asks for one from then on.
pub proof fn lemma_grant_is_valid_until_margin(
    state: TokenState,
    token: Seq<char>,
    expires_in: int,
    at: int,
    now: int,
)
    ensures
        state.granted(token, expires_in, at).must_refresh(now) <==> now >= at + expires_in - 60,
        state.granted(token, expires_in, at).valid_at(now) ==> state.granted(
            token,
            expires_in,
            at,
        ).access_token == Some(token),
{
}

/// A step never both hands out a token and asks for a refresh: it is `Ready`
/// exactly when the token is valid.
pub proof fn lemma_step_refreshes_iff_invalid(step: TokenStep, state: TokenState, now: int)
    requires
        is_token_step(step, state, now),
    ensures
        step is Refresh <==> state.must_refresh(now),
        step is Ready <==> state.valid_at(now),
{
}

} // verus!
