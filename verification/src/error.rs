//! The failures that the request core reports.

use crate::text::{decimal, push_decimal};
use vstd::prelude::*;
use vstd::string::*;

verus! {

/// `reqwest::Error`, the failure of a transfer. Nothing is known of its
/// content; it is carried to the caller as it came.
#[verifier::external_type_specification]
#[verifier::external_body]
pub struct ExReqwestError(reqwest::Error);

/// `serde_json::Error`, the failure to read or write JSON. Nothing is known
/// of its content; it is carried to the caller as it came.
#[verifier::external_type_specification]
#[verifier::external_body]
pub struct ExJsonError(serde_json::Error);

pub type RustyResult<T> = Result<T, RustyError>;

/// Every way in which a request can fail. None of them is retried here: the
/// caller decides, informed by the delay that `SpotifyRateLimited` carries.
#[derive(Debug)]
pub enum RustyError {
    /// The transport failed: no connection, a timeout, a body cut short.
    Network(reqwest::Error),
    /// A response that declared success held JSON of another shape.
    ParseJson(serde_json::Error),
    /// An argument breaks a documented bound; the message names the bound.
    InvalidInput(String),
    /// The authorization server rejected the credentials; the message is
    /// what it answered.
    TokenAuthentication(String),
    /// The API answered 429 and asked to wait this many seconds.
    SpotifyRateLimited(u64),
    /// Any other status, or a 429 that does not say how long to wait.
    Unexpected(String),
}

/// An error as contracts see it: the same cases, with each message as the
/// sequence of its characters.
pub enum ErrorView {
    Network(reqwest::Error),
    ParseJson(serde_json::Error),
    InvalidInput(Seq<char>),
    TokenAuthentication(Seq<char>),
    SpotifyRateLimited(u64),
    Unexpected(Seq<char>),
}

impl View for RustyError {
    type V = ErrorView;

    open spec fn view(&self) -> ErrorView {
        match *self {
            RustyError::Network(e) => ErrorView::Network(e),
            RustyError::ParseJson(e) => ErrorView::ParseJson(e),
            RustyError::InvalidInput(msg) => ErrorView::InvalidInput(msg@),
            RustyError::TokenAuthentication(msg) => ErrorView::TokenAuthentication(msg@),
            RustyError::SpotifyRateLimited(seconds) => ErrorView::SpotifyRateLimited(seconds),
            RustyError::Unexpected(msg) => ErrorView::Unexpected(msg@),
        }
    }
}

/// What `reqwest::Error` prints for `e`.
pub uninterp spec fn network_error_text(e: reqwest::Error) -> Seq<char>;

/// What `serde_json::Error` prints for `e`.
pub uninterp spec fn json_error_text(e: serde_json::Error) -> Seq<char>;

/// Calls `Display` of `reqwest::Error`; `network_error_text` names what it
/// writes.
#[verifier::external_body]
fn network_error_string(e: &reqwest::Error) -> (s: String)
    ensures
        s@ == network_error_text(*e),
{
    format!("{e}")
}

/// Calls `Display` of `serde_json::Error`; `json_error_text` names what it
/// writes.
#[verifier::external_body]
fn json_error_string(e: &serde_json::Error) -> (s: String)
    ensures
        s@ == json_error_text(*e),
{
    format!("{e}")
}

impl ErrorView {
    /// The one-line description of this error.
    pub open spec fn description(self) -> Seq<char> {
        match self {
            ErrorView::Network(e) => "network error: "@ + network_error_text(e),
            ErrorView::ParseJson(e) => "failed to parse data: "@ + json_error_text(e),
            ErrorView::InvalidInput(msg) => "input/output error: "@ + msg,
            ErrorView::TokenAuthentication(msg) => "token authentication error: "@ + msg,
            ErrorView::SpotifyRateLimited(seconds) => "rate limited by Spotify API, retry after "@
                + decimal(seconds as nat) + " seconds"@,
            ErrorView::Unexpected(msg) => "an unexpected error occurred: "@ + msg,
        }
    }
}

impl RustyError {
    /// An `InvalidInput` error with `msg` as its message.
    pub fn invalid_input(msg: &str) -> (e: Self)
        ensures
            e@ == ErrorView::InvalidInput(msg@),
    {
        RustyError::InvalidInput(String::from_str(msg))
    }

    /// Describes the error in one line, for a person to read.
    pub fn describe(&self) -> (s: String)
        ensures
            s@ == self@.description(),
    {
        match self {
            RustyError::Network(e) => {
                String::from_str("network error: ").concat(network_error_string(e).as_str())
            },
            RustyError::ParseJson(e) => {
                String::from_str("failed to parse data: ").concat(json_error_string(e).as_str())
            },
            RustyError::InvalidInput(msg) => {
                String::from_str("input/output error: ").concat(msg.as_str())
            },
            RustyError::TokenAuthentication(msg) => {
                String::from_str("token authentication error: ").concat(msg.as_str())
            },
            RustyError::SpotifyRateLimited(seconds) => {
                let mut s = String::from_str("rate limited by Spotify API, retry after ");
                push_decimal(&mut s, *seconds);
                s.concat(" seconds")
            },
            RustyError::Unexpected(msg) => {
                String::from_str("an unexpected error occurred: ").concat(msg.as_str())
            },
        }
    }
}

impl From<reqwest::Error> for RustyError {
    /// A transport failure as a `Network` error.
    fn from(err: reqwest::Error) -> (e: RustyError) {
        RustyError::Network(err)
    }
}

impl vstd::std_specs::convert::FromSpecImpl<reqwest::Error> for RustyError {
    open spec fn obeys_from_spec() -> bool {
        true
    }

    open spec fn from_spec(err: reqwest::Error) -> RustyError {
        RustyError::Network(err)
    }
}

impl From<serde_json::Error> for RustyError {
    /// A failure to parse as a `ParseJson` error.
    fn from(err: serde_json::Error) -> (e: RustyError) {
        RustyError::ParseJson(err)
    }
}

impl vstd::std_specs::convert::FromSpecImpl<serde_json::Error> for RustyError {
    open spec fn obeys_from_spec() -> bool {
        true
    }

    open spec fn from_spec(err: serde_json::Error) -> RustyError {
        RustyError::ParseJson(err)
    }
}

} // verus!
