use http::Request;
use tauri_plugin_websocket::{client_request, ConnectionConfig, Error};

fn built(r: Option<Result<Request<()>, Error>>) -> Result<Request<()>, Error> {
    r.expect("the header map has room")
}

fn with_headers(headers: Vec<(&str, &str)>) -> Option<ConnectionConfig> {
    Some(ConnectionConfig {
        read_buffer_size: None,
        write_buffer_size: None,
        max_write_buffer_size: None,
        max_message_size: None,
        max_frame_size: None,
        accept_unmasked_frames: false,
        headers: Some(headers.into_iter().map(|(k, v)| (k.to_string(), v.to_string())).collect()),
    })
}

#[test]
fn plain_url_makes_request() {
    let r = built(client_request("ws://localhost:8080/socket".to_string(), &None));
    let request = r.expect("request");
    assert_eq!(request.uri().host(), Some("localhost"));
    assert_eq!(request.headers().get("Upgrade").unwrap(), "websocket");
}

#[test]
fn bad_url_is_a_websocket_error() {
    let r = built(client_request("no host here".to_string(), &None));
    assert!(matches!(r, Err(Error::Websocket(_))));
}

#[test]
fn headers_are_set() {
    let config = with_headers(vec![("Authorization", "Bearer abc"), ("X-Extra", "1")]);
    let request = built(client_request("ws://example.com".to_string(), &config)).expect("request");
    assert_eq!(request.headers().get("authorization").unwrap(), "Bearer abc");
    assert_eq!(request.headers().get("x-extra").unwrap(), "1");
}

#[test]
fn bad_header_name() {
    let config = with_headers(vec![("Good", "ok"), ("bad name", "ok")]);
    let r = built(client_request("ws://example.com".to_string(), &config));
    assert!(matches!(r, Err(Error::InvalidHeaderName(_))));
}

#[test]
fn bad_header_value() {
    let config = with_headers(vec![("Good", "line\nbreak")]);
    let r = built(client_request("ws://example.com".to_string(), &config));
    assert!(matches!(r, Err(Error::InvalidHeaderValue(_))));
}

#[test]
fn name_checked_before_value() {
    let config = with_headers(vec![("bad name", "line\nbreak")]);
    let r = built(client_request("ws://example.com".to_string(), &config));
    assert!(matches!(r, Err(Error::InvalidHeaderName(_))));
}

#[test]
fn first_bad_header_decides() {
    let config = with_headers(vec![("Fine", "tab\tok"), ("X", "bad\u{7f}"), ("bad name", "v")]);
    let r = built(client_request("ws://example.com".to_string(), &config));
    assert!(matches!(r, Err(Error::InvalidHeaderValue(_))));
}

#[test]
fn url_checked_before_headers() {
    let config = with_headers(vec![("bad name", "v")]);
    let r = built(client_request("no host here".to_string(), &config));
    assert!(matches!(r, Err(Error::Websocket(_))));
}

#[test]
fn configuration_without_headers() {
    let mut config = with_headers(vec![]);
    config.as_mut().unwrap().headers = None;
    assert!(built(client_request("wss://example.com/x".to_string(), &config)).is_ok());
}

#[test]
fn non_ascii_value_is_accepted() {
    let config = with_headers(vec![("X-A", "é")]);
    let request = built(client_request("ws://example.com".to_string(), &config)).expect("request");
    assert_eq!(request.headers().get("x-a").unwrap().as_bytes(), "é".as_bytes());
}

#[test]
fn non_ascii_value_then_bad_name() {
    let config = with_headers(vec![("X-A", "é"), ("bad name", "1")]);
    let r = built(client_request("ws://example.com".to_string(), &config));
    assert!(matches!(r, Err(Error::InvalidHeaderName(_))));
}

#[test]
fn later_header_replaces_earlier() {
    let config = with_headers(vec![("X-Token", "one"), ("x-token", "two"), ("Upgrade", "custom")]);
    let request = built(client_request("ws://example.com".to_string(), &config)).expect("request");
    let tokens: Vec<_> = request.headers().get_all("x-token").iter().collect();
    assert_eq!(tokens, vec!["two"]);
    let upgrades: Vec<_> = request.headers().get_all("upgrade").iter().collect();
    assert_eq!(upgrades, vec!["custom"]);
    assert_eq!(request.headers().get("sec-websocket-version").unwrap(), "13");
    assert_eq!(request.headers().len(), 6);
}

#[test]
fn request_targets_the_url() {
    let request = built(client_request("ws://user@example.org:9001/chat?x=1".to_string(), &None)).expect("request");
    assert_eq!(request.method(), "GET");
    assert_eq!(request.uri().to_string(), "ws://user@example.org:9001/chat?x=1");
    assert_eq!(request.headers().get("host").unwrap(), "example.org:9001");
}

#[test]
fn many_repeated_names_fit() {
    let pairs: Vec<(String, String)> = (0..10000).map(|i| (format!("X-{}", i % 10), format!("{}", i))).collect();
    let mut config = with_headers(vec![]);
    config.as_mut().unwrap().headers = Some(pairs);
    let request = built(client_request("ws://example.com".to_string(), &config)).expect("request");
    assert_eq!(request.headers().get("x-9").unwrap(), "9999");
    assert_eq!(request.headers().len(), 15);
}

#[test]
fn long_list_with_early_refusal() {
    let mut pairs: Vec<(String, String)> = vec![("bad name".to_string(), "v".to_string())];
    pairs.extend((0..10000).map(|i| (format!("X-{}", i), "v".to_string())));
    let mut config = with_headers(vec![]);
    config.as_mut().unwrap().headers = Some(pairs);
    let r = built(client_request("ws://example.com".to_string(), &config));
    assert!(matches!(r, Err(Error::InvalidHeaderName(_))));
}

#[test]
fn header_map_without_room() {
    let pairs: Vec<(String, String)> = (0..30000).map(|i| (format!("X-{}", i), "v".to_string())).collect();
    let mut config = with_headers(vec![]);
    config.as_mut().unwrap().headers = Some(pairs);
    assert!(client_request("ws://example.com".to_string(), &config).is_none());
}
