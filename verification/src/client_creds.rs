//! The request pipeline: a GET against the catalog API that looks in the
//! cache first, attaches a valid token, and reads rate limits off the reply.
//!
//! The pipeline performs no I/O. For each request it is a state machine: the
//! caller hands it an event, it answers with the next action, and the caller
//! performs that action and comes back with what happened.

use crate::cache::{duration_nanos, stored, visible, Cache};
use crate::error::{ErrorView, RustyError};
use crate::models::auth::{AuthForm, ClientCredsAuthRequest, ClientCredsAuthResponse};
use crate::text::{decimal, parse_u64, parse_u64_spec, push_decimal};
use crate::token_manager::{SpotifyTokenManager, TokenState, TokenStep};
use serde_json::Value;
use std::time::Duration;
use vstd::prelude::*;
use vstd::string::*;

verus! {

/// `serde_json::Value`, any JSON value: the form in which responses are
/// cached. Nothing is known of its content.
#[verifier::external_type_specification]
#[verifier::external_body]
pub struct ExJsonValue(Value);

/// `Clone` of `serde_json::Value`, which the crate derives: the copy equals
/// the value.
pub assume_specification[ <Value as Clone>::clone ](v: &Value) -> (copy: Value)
    ensures
        copy == *v,
;

/// `Duration::from_secs` of std: a duration of `secs` whole seconds.
pub assume_specification[ Duration::from_secs ](secs: u64) -> (d: Duration)
    ensures
        duration_nanos(d) == secs * 1_000_000_000,
;

/// The reason phrase that `reqwest::StatusCode` knows for `status`, if it
/// knows one.
pub uninterp spec fn reason_phrase(status: u16) -> Option<Seq<char>>;

/// Calls `StatusCode::from_u16` and `StatusCode::canonical_reason` of
/// reqwest: the standard reason phrase of a status, and nothing for a number
/// that is no status or has no standard phrase. `reason_phrase` names it.
#[verifier::external_body]
fn canonical_reason(status: u16) -> (reason: Option<String>)
    ensures
        match reason {
            Some(phrase) => reason_phrase(status) == Some(phrase@),
            None => reason_phrase(status) is None,
        },
{
    reqwest::StatusCode::from_u16(status).ok().and_then(|s| s.canonical_reason()).map(String::from)
}

/// The seconds for which the client keeps a response.
pub const CACHE_TTL_SECS: u64 = 600;

/// The two clock readings that a step of a request goes by.
#[derive(Debug, Clone, Copy)]
pub struct Now {
    /// Nanoseconds on the cache's clock.
    pub cache: u128,
    /// Seconds since the Unix epoch.
    pub unix: u64,
}

/// An HTTP reply as far as the pipeline reads it.
#[derive(Debug)]
pub struct HttpReply {
    pub status: u16,
    /// The bytes of the `Retry-After` header, if the reply has one.
    pub retry_after: Option<Vec<u8>>,
    /// The body as text, or the failure to read it.
    pub body: Result<String, reqwest::Error>,
}

/// What the caller reports to the pipeline.
#[derive(Debug)]
pub enum Event {
    /// The request begins.
    Start,
    /// Whether the cached value had the shape that the caller expects.
    Decoded(bool),
    /// A request could not be sent, or no reply came.
    Unreachable(reqwest::Error),
    /// The reply to the request that was sent last.
    Reply(HttpReply),
    /// The body of the token endpoint's reply, parsed.
    Grant(Result<ClientCredsAuthResponse, serde_json::Error>),
    /// The body of the API's reply, parsed and brought back into the form
    /// that the cache keeps.
    Body(Result<Value, serde_json::Error>),
}

/// What the pipeline asks the caller to do next.
#[derive(Debug)]
pub enum Action {
    /// Try to read this cached value in the expected shape; report `Decoded`.
    Decode(Value),
    /// Post this form to the token endpoint; report `Reply` or `Unreachable`.
    Authorize(ClientCredsAuthRequest),
    /// Parse this body of the token endpoint; report `Grant`.
    ParseGrant(String),
    /// Send a GET to `url` with `authorization` as the header of that name;
    /// report `Reply` or `Unreachable`.
    Send { url: String, authorization: String },
    /// Parse this body in the expected shape; report `Body`.
    ParseBody(String),
    /// The request succeeded: the value that was decoded or parsed last is
    /// its result.
    Done,
    /// The request failed with this error.
    Fail(RustyError),
}

/// An action as contracts see it.
pub enum ActionView {
    Decode(Value),
    Authorize(AuthForm),
    ParseGrant(Seq<char>),
    Send { url: Seq<char>, authorization: Seq<char> },
    ParseBody(Seq<char>),
    Done,
    Fail(ErrorView),
}

impl View for Action {
    type V = ActionView;

    open spec fn view(&self) -> ActionView {
        match *self {
            Action::Decode(v) => ActionView::Decode(v),
            Action::Authorize(form) => ActionView::Authorize(form@),
            Action::ParseGrant(body) => ActionView::ParseGrant(body@),
            Action::Send { url, authorization } => ActionView::Send {
                url: url@,
                authorization: authorization@,
            },
            Action::ParseBody(body) => ActionView::ParseBody(body@),
            Action::Done => ActionView::Done,
            Action::Fail(e) => ActionView::Fail(e@),
        }
    }
}

/// How far a request has come: which report the pipeline waits for.
#[derive(Debug, Clone, Copy)]
pub enum Phase {
    /// Nothing has happened yet.
    Idle,
    /// The caller is reading a cached value.
    Decoding,
    /// The token endpoint has been asked.
    Authorizing,
    /// The caller is parsing the token endpoint's reply.
    ParsingGrant,
    /// The API has been asked.
    Fetching,
    /// The caller is parsing the API's reply.
    ParsingBody,
    /// The request is over.
    Finished,
}

/// A request as contracts see it.
pub struct RequestState {
    pub path: Seq<char>,
    pub phase: Phase,
}

impl RequestState {
    /// The same request in another phase.
    pub open spec fn at(self, phase: Phase) -> RequestState {
        RequestState { phase, ..self }
    }
}

/// One GET in flight: the path with its query, which is also the key under
/// which the response is cached, and the phase that the request is in.
#[derive(Debug)]
pub struct Request {
    path: String,
    phase: Phase,
}

impl View for Request {
    type V = RequestState;

    closed spec fn view(&self) -> RequestState {
        RequestState { path: self.path@, phase: self.phase }
    }
}

impl Request {
    /// A request for `path` that has not begun.
    pub fn new(path: String) -> (request: Self)
        ensures
            request@ == (RequestState { path: path@, phase: Phase::Idle }),
    {
        Request { path, phase: Phase::Idle }
    }

    /// The path that is asked for.
    pub fn path(&self) -> (path: &String)
        ensures
            path@ == self@.path,
    {
        &self.path
    }

    /// The phase that the request is in.
    pub fn phase(&self) -> (phase: Phase)
        ensures
            phase == self@.phase,
    {
        self.phase
    }
}

/// A client as contracts see it.
pub struct ClientState {
    /// The state of the token manager.
    pub token: TokenState,
    /// Each cached key with its value and its expiry instant.
    pub cache: Map<Seq<char>, (Value, nat)>,
    /// The time-to-live of the cache, in nanoseconds.
    pub ttl: nat,
}

/// The address of `path` on the catalog API.
pub open spec fn api_url(path: Seq<char>) -> Seq<char> {
    "https://api.spotify.com/v1"@ + path
}

/// The value of the `Authorization` header that presents `token`.
pub open spec fn bearer(token: Seq<char>) -> Seq<char> {
    "Bearer "@ + token
}

/// A status as the reply line shows it: the number, and the standard reason
/// phrase where there is one.
pub open spec fn status_text(status: u16) -> Seq<char> {
    decimal(status as nat) + " "@ + match reason_phrase(status) {
        Some(phrase) => phrase,
        None => "<unknown status code>"@,
    }
}

/// The seconds that a `Retry-After` header asks to wait: the header has to
/// be there and to spell an unsigned integer.
pub open spec fn retry_after_seconds(header: Option<Vec<u8>>) -> Option<u64> {
    match header {
        Some(bytes) => parse_u64_spec(bytes@),
        None => None,
    }
}

/// The error that a reply of the API with a status other than 200 means.
pub open spec fn status_error(status: u16, retry_after: Option<Vec<u8>>) -> ErrorView {
    if status == 429 {
        match retry_after_seconds(retry_after) {
            Some(seconds) => ErrorView::SpotifyRateLimited(seconds),
            None => ErrorView::Unexpected(
                "Rate limited by Spotify Web API, but no retry time provided."@,
            ),
        }
    } else {
        ErrorView::Unexpected("API request failed with status: "@ + status_text(status))
    }
}

/// The end of a request in failure: nothing changes but the phase.
pub open spec fn fail(client: ClientState, request: RequestState, error: ErrorView) -> (
    ClientState,
    RequestState,
    ActionView,
) {
    (client, request.at(Phase::Finished), ActionView::Fail(error))
}

/// The GET for `request`, with `token` attached.
pub open spec fn send(client: ClientState, request: RequestState, token: Seq<char>) -> (
    ClientState,
    RequestState,
    ActionView,
) {
    (
        client,
        request.at(Phase::Fetching),
        ActionView::Send { url: api_url(request.path), authorization: bearer(token) },
    )
}

/// What follows once the cache has nothing to give: the GET where the token
/// in hand is valid, and else the refresh.
pub open spec fn after_miss(client: ClientState, request: RequestState, now: Now) -> (
    ClientState,
    RequestState,
    ActionView,
) {
    if client.token.valid_at(now.unix as int) {
        send(client, request, client.token.access_token->0)
    } else {
        (client, request.at(Phase::Authorizing), ActionView::Authorize(client.token.refresh_form()))
    }
}

/// One step of a request: from the client, the request and an event at the
/// instant `now` to the client and the request afterwards, and the action
/// that the caller performs next.
///
/// 1. At the start the cache is asked for the path. A hit is handed out to be
///    decoded; if the caller can decode it the request is done, with no
///    token and no network. A miss, or a hit that does not decode, goes on.
/// 2. A valid token is attached; where there is none, the token endpoint is
///    asked first, and its rejection ends the request.
/// 3. The reply to the GET is read by its status: 200 is parsed, 429 is a
///    rate limit, anything else is unexpected.
/// 4. A body that parses is cached under the path and the request is done; one
///    that does not is a parse error.
///
/// A transport failure ends the request as a network error wherever it
/// occurs, and an event that does not answer the pending action ends it as
/// unexpected.
pub open spec fn step(client: ClientState, request: RequestState, event: Event, now: Now) -> (
    ClientState,
    RequestState,
    ActionView,
) {
    match (request.phase, event) {
        (Phase::Idle, Event::Start) => match visible(client.cache, request.path, now.cache as nat) {
            Some(value) => (client, request.at(Phase::Decoding), ActionView::Decode(value)),
            None => after_miss(client, request, now),
        },
        (Phase::Decoding, Event::Decoded(readable)) => if readable {
            (client, request.at(Phase::Finished), ActionView::Done)
        } else {
            after_miss(client, request, now)
        },
        (Phase::Authorizing, Event::Unreachable(e)) => fail(client, request, ErrorView::Network(e)),
        (Phase::Authorizing, Event::Reply(reply)) => match crate::token_manager::token_reply_outcome(
            reply.status,
            reply.body,
        ) {
            Ok(body) => (client, request.at(Phase::ParsingGrant), ActionView::ParseGrant(body)),
            Err(error) => fail(client, request, error),
        },
        (Phase::ParsingGrant, Event::Grant(Ok(grant))) => send(
            ClientState {
                token: client.token.granted(
                    grant.access_token@,
                    grant.expires_in as int,
                    now.unix as int,
                ),
                ..client
            },
            request,
            grant.access_token@,
        ),
        (Phase::ParsingGrant, Event::Grant(Err(e))) => fail(client, request, ErrorView::ParseJson(e)),
        (Phase::Fetching, Event::Unreachable(e)) => fail(client, request, ErrorView::Network(e)),
        (Phase::Fetching, Event::Reply(reply)) => if reply.status == 200 {
            match reply.body {
                Ok(body) => (client, request.at(Phase::ParsingBody), ActionView::ParseBody(body@)),
                Err(e) => fail(client, request, ErrorView::Network(e)),
            }
        } else {
            fail(client, request, status_error(reply.status, reply.retry_after))
        },
        (Phase::ParsingBody, Event::Body(Ok(value))) => (
            ClientState {
                cache: stored(client.cache, client.ttl, request.path, value, now.cache as nat),
                ..client
            },
            request.at(Phase::Finished),
            ActionView::Done,
        ),
        (Phase::ParsingBody, Event::Body(Err(e))) => fail(client, request, ErrorView::ParseJson(e)),
        _ => fail(
            client,
            request,
            ErrorView::Unexpected("The event does not answer the pending action."@),
        ),
    }
}

/// A client of the catalog API for one pair of client credentials: the
/// token manager and the cache of responses.
pub struct SpotifyClientCredentials {
    token_manager: SpotifyTokenManager,
    cache: Cache<Value>,
}

impl View for SpotifyClientCredentials {
    type V = ClientState;

    closed spec fn view(&self) -> ClientState {
        ClientState { token: self.token_manager@, cache: self.cache@, ttl: self.cache.ttl() }
    }
}

/// The line that tells which status made a request fail.
pub fn status_message(status: u16) -> (msg: String)
    ensures
        msg@ == "API request failed with status: "@ + status_text(status),
{
    let mut msg = String::from_str("API request failed with status: ");
    push_decimal(&mut msg, status as u64);
    msg.append(" ");
    match canonical_reason(status) {
        Some(phrase) => msg.append(phrase.as_str()),
        None => msg.append("<unknown status code>"),
    }
    msg
}

/// Reads a reply of the API whose status is not 200. A 429 whose
/// `Retry-After` header spells an unsigned integer is a rate limit of that
/// many seconds; a 429 without such a header, and every other status, is
/// unexpected.
pub fn interpret_status(status: u16, retry_after: Option<Vec<u8>>) -> (error: RustyError)
    ensures
        error@ == status_error(status, retry_after),
{
    if status == 429 {
        let seconds = match &retry_after {
            Some(bytes) => parse_u64(bytes.as_slice()),
            None => None,
        };
        match seconds {
            Some(n) => RustyError::SpotifyRateLimited(n),
            None => RustyError::Unexpected(
                String::from_str("Rate limited by Spotify Web API, but no retry time provided."),
            ),
        }
    } else {
        RustyError::Unexpected(status_message(status))
    }
}

impl SpotifyClientCredentials {
    /// A client for these credentials, with no token and an empty cache that
    /// keeps each response for ten minutes.
    pub fn new(client_id: String, client_secret: String) -> (client: Self)
        ensures
            client@.token == TokenState::fresh(client_id@, client_secret@),
            client@.cache == Map::<Seq<char>, (Value, nat)>::empty(),
            client@.ttl == CACHE_TTL_SECS * 1_000_000_000,
    {
        SpotifyClientCredentials {
            token_manager: SpotifyTokenManager::new(client_id, client_secret),
            cache: Cache::new(Duration::from_secs(CACHE_TTL_SECS)),
        }
    }

    /// The present readings of the two clocks.
    pub fn now(&self) -> Now {
        Now { cache: self.cache.elapsed(), unix: SpotifyTokenManager::unix_now() }
    }

    /// Stores `value` under `key` at the instant `now` of the cache's clock.
    pub fn update_cache_at(&mut self, key: String, value: Value, now: u128)
        ensures
            final(self)@ == (ClientState {
                cache: stored(old(self)@.cache, old(self)@.ttl, key@, value, now as nat),
                ..old(self)@
            }),
    {
        self.cache.set_at(key, value, now);
    }

    /// `update_cache_at` at the present instant.
    pub fn update_cache(&mut self, key: String, value: Value)
        ensures
            exists|now: nat|
                final(self)@.cache == #[trigger] stored(
                    old(self)@.cache,
                    old(self)@.ttl,
                    key@,
                    value,
                    now,
                ),
            final(self)@.token == old(self)@.token,
            final(self)@.ttl == old(self)@.ttl,
    {
        let now = self.cache.elapsed();
        self.update_cache_at(key, value, now);
    }

    /// The value cached under `key` if it has not expired at the instant
    /// `now` of the cache's clock.
    pub fn check_cache_at(&self, key: &str, now: u128) -> (found: Option<Value>)
        ensures
            found == visible(self@.cache, key@, now as nat),
    {
        self.cache.get_at(key, now)
    }

    /// `check_cache_at` at the present instant.
    pub fn check_cache(&self, key: &str) -> (found: Option<Value>)
        ensures
            exists|now: nat| found == #[trigger] visible(self@.cache, key@, now),
    {
        let now = self.cache.elapsed();
        self.check_cache_at(key, now)
    }

    fn send_with(&self, request: &mut Request, token: &String) -> (action: Action)
        ensures
            final(request)@ == old(request)@.at(Phase::Fetching),
            action@ == (ActionView::Send {
                url: api_url(old(request)@.path),
                authorization: bearer(token@),
            }),
    {
        request.phase = Phase::Fetching;
        let url = String::from_str("https://api.spotify.com/v1").concat(request.path.as_str());
        let authorization = String::from_str("Bearer ").concat(token.as_str());
        Action::Send { url, authorization }
    }

    fn go_on_after_miss(&self, request: &mut Request, now: Now) -> (action: Action)
        ensures
            (self@, final(request)@, action@) == after_miss(self@, old(request)@, now),
    {
        match self.token_manager.get_valid_token_at(now.unix) {
            TokenStep::Ready(token) => self.send_with(request, &token),
            TokenStep::Refresh(form) => {
                request.phase = Phase::Authorizing;
                Action::Authorize(form)
            },
        }
    }

    fn finish(request: &mut Request, error: RustyError) -> (action: Action)
        ensures
            final(request)@ == old(request)@.at(Phase::Finished),
            action@ == ActionView::Fail(error@),
    {
        request.phase = Phase::Finished;
        Action::Fail(error)
    }

    /// Takes one step of `request` at the instant `now`: see `step`.
    pub fn advance_at(&mut self, request: &mut Request, event: Event, now: Now) -> (action: Action)
        ensures
            (final(self)@, final(request)@, action@) == step(old(self)@, old(request)@, event, now),
    {
        match (request.phase, event) {
            (Phase::Idle, Event::Start) => {
                match self.cache.get_at(request.path.as_str(), now.cache) {
                    Some(value) => {
                        request.phase = Phase::Decoding;
                        Action::Decode(value)
                    },
                    None => self.go_on_after_miss(request, now),
                }
            },
            (Phase::Decoding, Event::Decoded(readable)) => {
                if readable {
                    request.phase = Phase::Finished;
                    Action::Done
                } else {
                    self.go_on_after_miss(request, now)
                }
            },
            (Phase::Authorizing, Event::Unreachable(e)) => {
                Self::finish(request, RustyError::Network(e))
            },
            (Phase::Authorizing, Event::Reply(reply)) => {
                match SpotifyTokenManager::check_token_reply(reply.status, reply.body) {
                    Ok(body) => {
                        request.phase = Phase::ParsingGrant;
                        Action::ParseGrant(body)
                    },
                    Err(error) => Self::finish(request, error),
                }
            },
            (Phase::ParsingGrant, Event::Grant(Ok(grant))) => {
                let token = grant.access_token.clone();
                self.token_manager.accept_token_at(grant, now.unix);
                self.send_with(request, &token)
            },
            (Phase::ParsingGrant, Event::Grant(Err(e))) => {
                Self::finish(request, RustyError::ParseJson(e))
            },
            (Phase::Fetching, Event::Unreachable(e)) => {
                Self::finish(request, RustyError::Network(e))
            },
            (Phase::Fetching, Event::Reply(reply)) => {
                if reply.status == 200 {
                    match reply.body {
                        Ok(body) => {
                            request.phase = Phase::ParsingBody;
                            Action::ParseBody(body)
                        },
                        Err(e) => Self::finish(request, RustyError::Network(e)),
                    }
                } else {
                    Self::finish(request, interpret_status(reply.status, reply.retry_after))
                }
            },
            (Phase::ParsingBody, Event::Body(Ok(value))) => {
                self.cache.set_at(request.path.clone(), value, now.cache);
                request.phase = Phase::Finished;
                Action::Done
            },
            (Phase::ParsingBody, Event::Body(Err(e))) => {
                Self::finish(request, RustyError::ParseJson(e))
            },
            _ => {
                Self::finish(
                    request,
                    RustyError::Unexpected(
                        String::from_str("The event does not answer the pending action."),
                    ),
                )
            },
        }
    }

    /// `advance_at` at the present readings of the clocks.
    pub fn advance(&mut self, request: &mut Request, event: Event) -> (action: Action)
        ensures
            exists|now: Now|
                (final(self)@, final(request)@, action@) == #[trigger] step(
                    old(self)@,
                    old(request)@,
                    event,
                    now,
                ),
    {
        let now = self.now();
        self.advance_at(request, event, now)
    }
}

} // verus!
