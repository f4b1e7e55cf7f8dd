use tauri_plugin_websocket::{
    server_step, ServerAction, ServerEvent,
    ConnectionHandler, Error, HandlerAction, HandlerEvent, Phase, ReadEvent, WebSocketMessage,
    WireMessage,
};

#[test]
fn messages_are_published_then_reading_resumes() {
    let mut h = ConnectionHandler::new(5);
    assert_eq!(h.current_phase(), Phase::Reading);
    let a = h.step(HandlerEvent::Read(ReadEvent::Received(WireMessage::Text("hi".to_string()))));
    assert!(matches!(a, HandlerAction::Publish(WebSocketMessage::Text(ref t)) if t == "hi"));
    assert_eq!(h.current_phase(), Phase::Publishing);
    let a = h.step(HandlerEvent::Published(Ok(())));
    assert!(matches!(a, HandlerAction::ReadNext));
    assert_eq!(h.current_phase(), Phase::Reading);
}

#[test]
fn end_of_stream_removes_the_connection() {
    let mut h = ConnectionHandler::new(5);
    let a = h.step(HandlerEvent::Read(ReadEvent::Ended));
    assert!(matches!(a, HandlerAction::RemoveConnection));
    let a = h.step(HandlerEvent::Removed(Ok(())));
    assert!(matches!(a, HandlerAction::Finish(Ok(()))));
    assert!(h.is_finished());
}

#[test]
fn failed_read_is_reported_then_connection_removed() {
    let mut h = ConnectionHandler::new(12);
    let a = h.step(HandlerEvent::Read(ReadEvent::Failed("reset".to_string())));
    match a {
        HandlerAction::Publish(m) => assert_eq!(
            m,
            WebSocketMessage::Error("connection channel closed for the given id: 12".to_string())
        ),
        other => panic!("unexpected {:?}", other),
    }
    assert_eq!(h.current_phase(), Phase::PublishingFailure);
    let a = h.step(HandlerEvent::Published(Ok(())));
    assert!(matches!(a, HandlerAction::RemoveConnection));
    let a = h.step(HandlerEvent::Removed(Err(Error::ConnectionNotFound(12))));
    assert!(matches!(a, HandlerAction::Finish(Err(Error::ConnectionNotFound(12)))));
    assert!(h.is_finished());
}

#[test]
fn failed_publish_finishes_at_once() {
    let mut h = ConnectionHandler::new(1);
    let _ = h.step(HandlerEvent::Read(ReadEvent::Received(WireMessage::Binary(vec![1]))));
    let a = h.step(HandlerEvent::Published(Err(Error::ConnectionNotFound(1))));
    assert!(matches!(a, HandlerAction::Finish(Err(Error::ConnectionNotFound(1)))));
    assert!(h.is_finished());
}

#[test]
fn server_decisions() {
    assert_eq!(server_step(ServerEvent::Accepted), ServerAction::HandleConnection);
    assert_eq!(server_step(ServerEvent::KillRequested), ServerAction::RemoveServerAndStop);
}
