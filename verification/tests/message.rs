use tauri_plugin_websocket::{CloseFrame, Error, WebSocketMessage, WireMessage};

fn all_messages() -> Vec<WebSocketMessage> {
    vec![
        WebSocketMessage::Text("hello".to_string()),
        WebSocketMessage::Binary(vec![1, 2, 3]),
        WebSocketMessage::Ping(vec![9]),
        WebSocketMessage::Pong(vec![]),
        WebSocketMessage::Close(None),
        WebSocketMessage::Close(Some(CloseFrame { code: 1000, reason: "bye".to_string() })),
    ]
}

#[test]
fn message_to_wire_and_back() {
    for m in all_messages() {
        let back = WebSocketMessage::from_wire(m.clone().into_wire());
        assert_eq!(back, m);
    }
}

#[test]
fn wire_to_message_and_back() {
    let wires = vec![
        WireMessage::Text("t".to_string()),
        WireMessage::Binary(vec![0, 255]),
        WireMessage::Ping(vec![1]),
        WireMessage::Pong(vec![2]),
        WireMessage::Close(Some(CloseFrame { code: 1001, reason: String::new() })),
    ];
    for w in wires {
        assert_eq!(WebSocketMessage::from_wire(w.clone()).into_wire(), w);
    }
}

#[test]
fn each_kind_keeps_its_kind() {
    assert_eq!(
        WebSocketMessage::from_wire(WireMessage::Binary(vec![5])),
        WebSocketMessage::Binary(vec![5])
    );
    assert_eq!(
        WebSocketMessage::Ping(vec![7]).into_wire(),
        WireMessage::Ping(vec![7])
    );
    assert_eq!(
        WebSocketMessage::Pong(vec![7]).into_wire(),
        WireMessage::Pong(vec![7])
    );
}

#[test]
fn error_report_message() {
    let m = WebSocketMessage::from_error(&Error::ConnectionNotFound(4));
    assert_eq!(
        m,
        WebSocketMessage::Error("connection not found for the given id: 4".to_string())
    );
}
