use barter_integration::error::SocketError;
use barter_integration::rest::{parse_response, request_url, ResponseError};

#[test]
fn request_url_appends_path_and_query() {
    assert_eq!(
        request_url("https://api.binance.com", "/api/v3/order", Some("symbol=BTCUSDT&limit=5")),
        "https://api.binance.com/api/v3/order?symbol=BTCUSDT&limit=5"
    );
    assert_eq!(request_url("https://ftx.com", "/api/markets", None), "https://ftx.com/api/markets");
}

#[test]
fn parse_response_prefers_the_expected_response() {
    let response: Result<u32, serde_json::Error> = serde_json::from_slice(b"42");
    let r = parse_response::<u32, String>(b"42".to_vec(), response, None);
    assert!(matches!(r, Ok(42)));
}

#[test]
fn parse_response_falls_back_to_the_api_error() {
    let payload = br#"{"code":-1121,"msg":"Invalid symbol."}"#.to_vec();
    let response: Result<u32, serde_json::Error> = serde_json::from_slice(&payload);
    let r = parse_response::<u32, String>(payload, response, Some(Ok("Invalid symbol.".to_string())));
    match r {
        Err(ResponseError::Api(message)) => assert_eq!(message, "Invalid symbol."),
        other => panic!("unexpected {other:?}"),
    }
}

#[test]
fn parse_response_reports_an_unreadable_payload() {
    let payload = b"<html>".to_vec();
    let response: Result<u32, serde_json::Error> = serde_json::from_slice(&payload);
    let r = parse_response::<u32, String>(payload, response, Some(Err(SocketError::Sink)));
    match r {
        Err(ResponseError::Socket(SocketError::DeserialiseBinary { payload, .. })) => {
            assert_eq!(payload, b"<html>".to_vec())
        }
        other => panic!("unexpected {other:?}"),
    }
}

#[test]
fn parse_response_without_an_api_error_attempt() {
    let payload = b"[".to_vec();
    let response: Result<u32, serde_json::Error> = serde_json::from_slice(&payload);
    let r = parse_response::<u32, String>(payload, response, None);
    assert!(matches!(r, Err(ResponseError::Socket(SocketError::DeserialiseBinary { .. }))));
}
