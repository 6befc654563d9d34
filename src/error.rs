//! Errors produced while reading from, writing to, and interpreting an exchange connection.
use vstd::prelude::*;
use crate::model::SubscriptionId;

verus! {

/// serde_json's error, carried by the deserialisation variants of [`SocketError`].
#[verifier::external_type_specification]
#[verifier::external_body]
pub struct ExJsonError(serde_json::Error);

/// The transport's (tungstenite's) error, carried by [`SocketError::WebSocket`].
#[verifier::external_type_specification]
#[verifier::external_body]
pub struct ExWsError(tokio_tungstenite::tungstenite::Error);

/// serde_qs's error, carried by [`SocketError::QueryParams`].
#[verifier::external_type_specification]
#[verifier::external_body]
pub struct ExQueryError(serde_qs::Error);

/// url's parse error, carried by [`SocketError::UrlParse`].
#[verifier::external_type_specification]
#[verifier::external_body]
pub struct ExUrlParseError(url::ParseError);

/// reqwest's error, carried by [`SocketError::Http`] and [`SocketError::HttpTimeout`].
#[verifier::external_type_specification]
#[verifier::external_body]
pub struct ExHttpError(reqwest::Error);

/// Relies on `reqwest::Error::is_timeout`, which tells whether the error was caused by a
/// timeout; nothing is stated of which errors those are.
pub assume_specification[ reqwest::Error::is_timeout ](error: &reqwest::Error) -> bool;

/// Errors of an exchange connection and of the interpretation of what it carries.
#[derive(Debug)]
pub enum SocketError {
    /// The outbound side of the transport failed.
    Sink,
    /// A text payload could not be deserialised; carries the payload as it was received.
    Deserialise { error: serde_json::Error, payload: String },
    /// A binary payload could not be deserialised; carries the payload as it was received.
    DeserialiseBinary { error: serde_json::Error, payload: Vec<u8> },
    /// A value could not be serialised.
    Serialise(serde_json::Error),
    /// The exchange rejected a subscription.
    Subscribe(String),
    /// The connection was closed by a close frame, described here.
    Terminated(String),
    /// An entity was asked for something it does not support.
    Unsupported { entity: String, item: String },
    /// Query parameters could not be serialised.
    QueryParams(serde_qs::Error),
    /// A url could not be parsed.
    UrlParse(url::ParseError),
    /// The transport failed.
    WebSocket(tokio_tungstenite::tungstenite::Error),
    /// An HTTP request failed.
    Http(reqwest::Error),
    /// An HTTP request timed out.
    HttpTimeout(reqwest::Error),
    /// A data message could not be matched to any registered subscription.
    Unidentifiable(SubscriptionId),
    /// The exchange answered with one of its own errors.
    Exchange(ExchangeError),
}

/// Normalised errors returned by exchange APIs.
#[derive(Debug, Clone, Copy, PartialEq, Eq)]
pub enum ExchangeError {
    Maintenance,
    SignatureInvalid,
    NonceInvalid,
    RateLimit,
    OrderNotFound,
    OrderAlreadyCancelled,
    OrderAlreadyFilled,
    OrderRejected,
    OrderQuantityInsufficient,
    OrderPriceInsufficient,
    BalanceInsufficient,
}

impl SocketError {
    /// Whether this error ends the connection it came from: a transport failure or a close
    /// frame.
    pub open spec fn spec_is_terminal(&self) -> bool {
        self is WebSocket || self is Terminated
    }

    /// The error for a failed HTTP request: [`SocketError::HttpTimeout`] when it timed out,
    /// [`SocketError::Http`] otherwise, carrying it either way.
    pub fn from_http_error(error: reqwest::Error) -> (r: SocketError)
        ensures
            r == SocketError::Http(error) || r == SocketError::HttpTimeout(error),
    {
        if error.is_timeout() {
            SocketError::HttpTimeout(error)
        } else {
            SocketError::Http(error)
        }
    }

    pub fn is_terminal(&self) -> (r: bool)
        ensures
            r == self.spec_is_terminal(),
    {
        match self {
            SocketError::WebSocket(_) => true,
            SocketError::Terminated(_) => true,
            _ => false,
        }
    }
}

} // verus!
