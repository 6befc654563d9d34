//! Protocol parsing: from one transport frame to an exchange message, a skip, or an error.
use vstd::prelude::*;
use crate::error::SocketError;
use tokio_tungstenite::tungstenite::Error as WsError;

verus! {

/// One frame received from a WebSocket transport.
///
/// A data frame carries its payload as received together with the outcome of deserialising
/// that payload (as JSON) into the exchange's message type `M`.
#[derive(Debug)]
pub enum Frame<M> {
    Text { payload: String, message: Result<M, serde_json::Error> },
    Binary { payload: Vec<u8>, message: Result<M, serde_json::Error> },
    Ping(Vec<u8>),
    Pong(Vec<u8>),
    /// A close frame, with a description of its code and reason (if any).
    Close(String),
}

/// What the parser makes of one transport item: `None` for a frame that is safe to skip,
/// `Some(Ok(message))` for a deserialised message, `Some(Err(error))` for anything to report.
pub open spec fn parse_spec<M>(input: Result<Frame<M>, WsError>) -> Option<Result<M, SocketError>> {
    match input {
        Err(error) => Some(Err(SocketError::WebSocket(error))),
        Ok(Frame::Text { payload, message }) => Some(
            match message {
                Ok(m) => Ok(m),
                Err(error) => Err(SocketError::Deserialise { error, payload }),
            },
        ),
        Ok(Frame::Binary { payload, message }) => Some(
            match message {
                Ok(m) => Ok(m),
                Err(error) => Err(SocketError::DeserialiseBinary { error, payload }),
            },
        ),
        Ok(Frame::Ping(_)) => None,
        Ok(Frame::Pong(_)) => None,
        Ok(Frame::Close(description)) => Some(Err(SocketError::Terminated(description))),
    }
}

/// Stateless parser of WebSocket frames.
#[derive(Clone, Copy, Debug, PartialEq, Eq, PartialOrd, Ord, Hash)]
pub struct WebSocketParser;

impl WebSocketParser {
    pub fn parse<M>(input: Result<Frame<M>, WsError>) -> (r: Option<Result<M, SocketError>>)
        ensures
            r == parse_spec(input),
    {
        match input {
            Ok(frame) => match frame {
                Frame::Text { payload, message } => process_text(payload, message),
                Frame::Binary { payload, message } => process_binary(payload, message),
                Frame::Ping(ping) => process_ping(ping),
                Frame::Pong(pong) => process_pong(pong),
                Frame::Close(description) => process_close_frame(description),
            },
            Err(error) => Some(Err(SocketError::WebSocket(error))),
        }
    }
}

/// A text payload: its message, or a deserialisation error carrying the payload.
pub fn process_text<M>(payload: String, message: Result<M, serde_json::Error>) -> (r: Option<
    Result<M, SocketError>,
>)
    ensures
        r == parse_spec(Ok(Frame::Text { payload, message })),
{
    match message {
        Ok(m) => Some(Ok(m)),
        Err(error) => Some(Err(SocketError::Deserialise { error, payload })),
    }
}

/// A binary payload: its message, or a deserialisation error carrying the payload bytes.
pub fn process_binary<M>(payload: Vec<u8>, message: Result<M, serde_json::Error>) -> (r: Option<
    Result<M, SocketError>,
>)
    ensures
        r == parse_spec(Ok(Frame::Binary { payload, message })),
{
    match message {
        Ok(m) => Some(Ok(m)),
        Err(error) => Some(Err(SocketError::DeserialiseBinary { error, payload })),
    }
}

/// A ping is safe to skip.
pub fn process_ping<M>(ping: Vec<u8>) -> (r: Option<Result<M, SocketError>>)
    ensures
        r is None,
{
    None
}

/// A pong is safe to skip.
pub fn process_pong<M>(pong: Vec<u8>) -> (r: Option<Result<M, SocketError>>)
    ensures
        r is None,
{
    None
}

/// A close frame always ends the stream: it is reported as [`SocketError::Terminated`].
pub fn process_close_frame<M>(description: String) -> (r: Option<Result<M, SocketError>>)
    ensures
        r == Some(Err::<M, SocketError>(SocketError::Terminated(description))),
{
    Some(Err(SocketError::Terminated(description)))
}

} // verus!
