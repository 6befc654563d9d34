//! The parts of a REST request that do not depend on the HTTP client: its url, and the
//! interpretation of what the server answered.
use vstd::prelude::*;
use vstd::string::*;
use crate::error::SocketError;
use crate::text::concat;

verus! {

/// `base_url` followed by `path`, and by `?` and the query string when there is one.
pub open spec fn request_url_text(base_url: Seq<char>, path: Seq<char>, query: Option<Seq<char>>) -> Seq<char> {
    match query {
        Some(q) => base_url + path + "?"@ + q,
        None => base_url + path,
    }
}

/// The url of a request: `base_url` followed by `path`, and by `?` and `query` when there are
/// query parameters.
pub fn request_url(base_url: &str, path: &str, query: Option<&str>) -> (r: String)
    ensures
        r@ == request_url_text(
            base_url@,
            path@,
            match query {
                Some(q) => Some(q@),
                None => None,
            },
        ),
{
    let url = concat(base_url, path);
    match query {
        Some(q) => {
            let url = url.concat("?");
            url.concat(q)
        },
        None => url,
    }
}

/// Why a response could not be turned into the expected value.
#[derive(Debug)]
pub enum ResponseError<ApiError> {
    /// The server answered with one of the API's own errors.
    Api(ApiError),
    /// The payload was neither the expected response nor an API error.
    Socket(SocketError),
}

/// Interprets a response payload from the attempts made to deserialise it: as the expected
/// response, then (only where that failed) as an API error. The response wins; failing that
/// the API error; failing both, or where no API error was tried, a
/// [`SocketError::DeserialiseBinary`] that carries the payload and the first attempt's error.
pub fn parse_response<Response, ApiError>(
    payload: Vec<u8>,
    response: Result<Response, serde_json::Error>,
    api_error: Option<Result<ApiError, SocketError>>,
) -> (r: Result<Response, ResponseError<ApiError>>)
    ensures
        response matches Ok(v) ==> r == Ok::<Response, ResponseError<ApiError>>(v),
        response matches Err(error) ==> match api_error {
            Some(Ok(e)) => r == Err::<Response, ResponseError<ApiError>>(ResponseError::Api(e)),
            _ => r == Err::<Response, ResponseError<ApiError>>(
                ResponseError::Socket(SocketError::DeserialiseBinary { error, payload }),
            ),
        },
{
    match response {
        Ok(v) => Ok(v),
        Err(error) => match api_error {
            Some(Ok(e)) => Err(ResponseError::Api(e)),
            _ => Err(ResponseError::Socket(SocketError::DeserialiseBinary { error, payload })),
        },
    }
}

} // verus!
