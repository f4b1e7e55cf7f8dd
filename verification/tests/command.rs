use tauri_plugin_websocket::{
    new_server, send_server_conn_reply, stop_server, subscribe_server, Error,
    ServerConnectionManager, ServerManager,
};

#[test]
fn stop_server_replies() {
    let mut m = ServerManager::new();
    let (id, _rx) = add(&mut m);
    assert_eq!(stop_server(&mut m, id), Ok(()));
    assert_eq!(
        stop_server(&mut m, id),
        Err("Failed to stop server 0: server not found for the given id: 0".to_string())
    );
}

#[test]
fn stop_server_with_task_gone() {
    let mut m = ServerManager::new();
    let (id, rx) = add(&mut m);
    drop(rx);
    assert_eq!(
        stop_server(&mut m, id),
        Err("Failed to stop server 0: failed to stop server 0".to_string())
    );
}

#[test]
fn subscribe_server_replies() {
    let mut m: ServerConnectionManager<u8, u8> = ServerConnectionManager::new();
    let id = m.add_connection(0);
    assert_eq!(subscribe_server(&mut m, id, 1), Ok(()));
    assert_eq!(
        subscribe_server(&mut m, 31, 1),
        Err("Failed to subscribe to server 31: connection not found for the given id: 31".to_string())
    );
}

#[test]
fn send_replies() {
    assert_eq!(send_server_conn_reply(2, Ok(())), Ok(()));
    assert_eq!(
        send_server_conn_reply(2, Err(Error::ConnectionNotFound(2))),
        Err("Failed to send message to server 2: connection not found for the given id: 2".to_string())
    );
}

#[test]
fn new_server_replies() {
    let mut m = ServerManager::new();
    let r = new_server(&mut m, 8080, Err("address in use".to_string()));
    assert_eq!(
        r.err(),
        Some("Failed to bind to port 8080: address in use".to_string())
    );
    let r = new_server(&mut m, 8080, Ok(()));
    let (id, rx) = r.ok().unwrap();
    let mut rx = rx.into_receiver();
    assert_eq!(id, 0);
    assert_eq!(stop_server(&mut m, id), Ok(()));
    assert!(rx.try_recv().is_ok());
}

fn add(m: &mut ServerManager) -> (u32, tokio::sync::oneshot::Receiver<()>) {
    let (id, stop) = m.add_server();
    (id, stop.into_receiver())
}
