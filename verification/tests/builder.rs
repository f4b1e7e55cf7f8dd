use tauri_plugin_websocket::Builder;
use tokio_tungstenite::Connector;

#[test]
fn builder_starts_without_connector() {
    assert!(Builder::new().into_tls_connector().is_none());
    assert!(Builder::default().into_tls_connector().is_none());
}

#[test]
fn builder_keeps_the_last_connector() {
    let b = Builder::new().tls_connector(Connector::Plain).tls_connector(Connector::Plain);
    assert!(matches!(b.into_tls_connector(), Some(Connector::Plain)));
}
