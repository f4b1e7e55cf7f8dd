use tauri_plugin_websocket::{Error, ServerConnectionManager, ServerManager};

#[test]
fn servers_get_consecutive_ids() {
    let mut m = ServerManager::new();
    let (a, _ra) = add(&mut m);
    let (b, _rb) = add(&mut m);
    assert_eq!(a, 0);
    assert_eq!(b, 1);
}

#[test]
fn stopping_unknown_server() {
    let mut m = ServerManager::default();
    assert!(matches!(m.remove_server(3), Err(Error::ServerNotFound(3))));
}

#[test]
fn stopping_a_running_server_signals_it() {
    let mut m = ServerManager::new();
    let (id, mut rx) = add(&mut m);
    assert!(m.remove_server(id).is_ok());
    assert!(rx.try_recv().is_ok());
    assert!(matches!(m.remove_server(id), Err(Error::ServerNotFound(i)) if i == id));
}

#[test]
fn stopping_a_server_whose_task_is_gone() {
    let mut m = ServerManager::new();
    let (id, rx) = add(&mut m);
    drop(rx);
    assert!(matches!(m.remove_server(id), Err(Error::FailedToStopServer(i)) if i == id));
    // the signal is spent: the server stays known but cannot be stopped
    assert!(matches!(m.remove_server(id), Err(Error::FailedToStopServer(i)) if i == id));
}

#[test]
fn other_servers_stay() {
    let mut m = ServerManager::new();
    let (a, _ra) = add(&mut m);
    let (b, _rb) = add(&mut m);
    assert!(m.remove_server(a).is_ok());
    assert!(m.remove_server(b).is_ok());
}

#[test]
fn connections_and_subscribers() {
    let mut m: ServerConnectionManager<u8, String> = ServerConnectionManager::new();
    let a = m.add_connection(10);
    let b = m.add_connection(20);
    assert_eq!((a, b), (0, 1));
    assert_eq!(*m.connection_writer(b).ok().unwrap(), 20);
    assert!(m.subscribers_of(a).ok().unwrap().is_empty());
    assert!(m.subscribe(a, "first".to_string()).is_ok());
    assert!(m.subscribe(a, "second".to_string()).is_ok());
    assert_eq!(
        m.subscribers_of(a).ok().unwrap(),
        &vec!["first".to_string(), "second".to_string()]
    );
    assert!(matches!(m.subscribe(7, "x".to_string()), Err(Error::ConnectionNotFound(7))));
    assert!(matches!(m.connection_writer(7), Err(Error::ConnectionNotFound(7))));
}

#[test]
fn removing_a_connection_twice() {
    let mut m: ServerConnectionManager<u8, String> = ServerConnectionManager::default();
    let a = m.add_connection(1);
    assert!(m.subscribe(a, "s".to_string()).is_ok());
    assert!(m.remove_connection(a).is_ok());
    assert!(matches!(m.remove_connection(a), Err(Error::ConnectionNotFound(0))));
    assert!(matches!(m.subscribe(a, "t".to_string()), Err(Error::ConnectionNotFound(0))));
    assert!(matches!(m.subscribers_of(a), Err(Error::ConnectionNotFound(0))));
}

#[test]
fn undelivered_subscribers_are_dropped() {
    let mut m: ServerConnectionManager<u8, &str> = ServerConnectionManager::new();
    let a = m.add_connection(1);
    for s in ["a", "b", "c", "d"] {
        assert!(m.subscribe(a, s).is_ok());
    }
    assert!(m.retain_subscribers(a, &vec![true, false, true, false]).is_ok());
    assert_eq!(m.subscribers_of(a).ok().unwrap(), &vec!["a", "c"]);
    assert!(m.retain_subscribers(a, &vec![true, true]).is_ok());
    assert_eq!(m.subscribers_of(a).ok().unwrap(), &vec!["a", "c"]);
    assert!(m.retain_subscribers(a, &vec![false, false]).is_ok());
    assert!(m.subscribers_of(a).ok().unwrap().is_empty());
    assert!(matches!(m.retain_subscribers(9, &vec![]), Err(Error::ConnectionNotFound(9))));
}

#[test]
fn taking_and_completing_a_stop() {
    let mut m = ServerManager::new();
    let (a, mut ra) = add(&mut m);
    let (b, mut rb) = add(&mut m);
    let kill = m.take_stop_signal(a).ok().unwrap();
    assert!(matches!(m.take_stop_signal(a), Err(Error::FailedToStopServer(i)) if i == a));
    assert!(kill.send(()).is_ok());
    assert!(ra.try_recv().is_ok());
    assert!(rb.try_recv().is_err());
    assert!(m.complete_stop(a, true).is_ok());
    assert!(matches!(m.take_stop_signal(a), Err(Error::ServerNotFound(i)) if i == a));
    assert!(matches!(m.complete_stop(b, false), Err(Error::FailedToStopServer(i)) if i == b));
    assert!(m.remove_server(b).is_ok());
    assert!(rb.try_recv().is_ok());
}

#[test]
fn stopping_one_server_signals_only_it() {
    let mut m = ServerManager::new();
    let (a, mut ra) = add(&mut m);
    let (b, mut rb) = add(&mut m);
    assert!(m.remove_server(b).is_ok());
    assert!(rb.try_recv().is_ok());
    assert!(ra.try_recv().is_err());
    assert!(m.remove_server(a).is_ok());
    assert!(ra.try_recv().is_ok());
}

#[test]
fn many_servers_get_distinct_ids() {
    let mut m = ServerManager::new();
    let mut ids = Vec::new();
    let mut receivers = Vec::new();
    for _ in 0..1000 {
        let (id, rx) = add(&mut m);
        ids.push(id);
        receivers.push(rx);
    }
    let mut sorted = ids.clone();
    sorted.sort();
    sorted.dedup();
    assert_eq!(sorted.len(), 1000);
}

fn add(m: &mut ServerManager) -> (u32, tokio::sync::oneshot::Receiver<()>) {
    let (id, stop) = m.add_server();
    (id, stop.into_receiver())
}
