use std::str::FromStr;

use tauri_plugin_websocket::{append_decimal, Error};
use tokio_tungstenite::tungstenite;

fn decimal_of(n: u32) -> String {
    let mut s = String::from("n=");
    append_decimal(&mut s, n);
    s
}

#[test]
fn decimal_digits() {
    assert_eq!(decimal_of(0), "n=0");
    assert_eq!(decimal_of(7), "n=7");
    assert_eq!(decimal_of(42), "n=42");
    assert_eq!(decimal_of(1000), "n=1000");
    assert_eq!(decimal_of(u32::MAX), "n=4294967295");
}

#[test]
fn error_texts_with_ids() {
    assert_eq!(
        Error::ConnectionNotFound(3).to_string(),
        "connection not found for the given id: 3"
    );
    assert_eq!(Error::FailedToStopServer(12).to_string(), "failed to stop server 12");
    assert_eq!(
        Error::ServerNotFound(0).to_string(),
        "server not found for the given id: 0"
    );
    assert_eq!(
        Error::ConnectionClosed(9, "broken pipe".to_string()).to_string(),
        "connection channel closed for the given id: 9"
    );
    assert_eq!(Error::InvalidMessageType.to_string(), "invalid message type");
}

#[test]
fn error_texts_of_outside_errors() {
    let name_err = http::header::HeaderName::from_str("bad name").unwrap_err();
    assert_eq!(Error::InvalidHeaderName(name_err).to_string(), "invalid HTTP header name");
    let value_err = http::header::HeaderValue::from_str("a\nb").unwrap_err();
    assert_eq!(
        Error::InvalidHeaderValue(value_err).to_string(),
        "failed to parse header value"
    );
    assert_eq!(
        Error::Websocket(tungstenite::Error::ConnectionClosed).to_string(),
        "Connection closed normally"
    );
}
