use ws_client::{
    ConnectionStatus, Effects, Frame, SendFailure, WsClient, WsManager, KEEPALIVE_INTERVAL,
};

fn quiet() -> Effects {
    Effects::quiet()
}

/// Brings a fresh manager to a connection in service that has carried a ping.
fn connected(url: &str) -> (WsManager, u64) {
    let mut manager = WsManager::new(url.to_string());
    let (attempt, _) = manager.start().connect.unwrap();
    manager.connection_result(attempt, true);
    manager.ping_result(attempt, Ok(()));
    assert_eq!(manager.status(), ConnectionStatus::Connected);
    (manager, attempt)
}

#[test]
fn test_ws_manger() {
    let mut manager = WsManager::new("ws://localhost:4800/ws".to_string());
    manager.set_url("http:localhost:4800".to_string());
    let started = manager.start();
    assert_eq!(started.connect, Some((0, "http:localhost:4800".to_string())));
    let refused = manager.connection_result(0, false);
    assert_eq!(refused, quiet());
    assert_eq!(manager.status(), ConnectionStatus::Stopped);
    let stopped = manager.stop();
    assert_eq!(stopped.notified, Some(ConnectionStatus::Stopped));
    assert_eq!(manager.status(), ConnectionStatus::Stopped);
}

#[test]
fn new_client_is_stopped_and_idle() {
    let client = WsClient::new("ws://host/ws".to_string());
    assert_eq!(client.status(), ConnectionStatus::Stopped);
    assert_eq!(client.target(), "ws://host/ws");
    assert_eq!(client.connection(), None);
    assert_eq!(client.pending_attempt(), None);
    assert!(!client.is_awaiting_reply());
}

#[test]
fn set_url_overrides_the_target_of_the_next_attempt() {
    let mut client = WsClient::new("ws://host/ws".to_string());
    assert_eq!(client.start().connect, Some((0, "ws://host/ws".to_string())));
    client.set_url("ws://other/ws".to_string());
    assert_eq!(client.target(), "ws://other/ws");
    assert_eq!(client.start().connect, Some((1, "ws://other/ws".to_string())));
    client.set_url(String::new());
    assert_eq!(client.start().connect, Some((2, String::new())));
}

#[test]
fn set_url_leaves_a_connection_in_service_alone() {
    let (mut manager, connection) = connected("ws://host/ws");
    manager.set_url("ws://other/ws".to_string());
    assert_eq!(manager.status(), ConnectionStatus::Connected);
    assert_eq!(manager.ping_due(connection).send, Some((connection, Frame::Ping(vec![]))));
}

#[test]
fn start_asks_for_a_connection_and_changes_no_status() {
    let mut client = WsClient::new("ws://host/ws".to_string());
    let effects = client.start();
    let mut expected = quiet();
    expected.connect = Some((0, "ws://host/ws".to_string()));
    assert_eq!(effects, expected);
    assert_eq!(client.status(), ConnectionStatus::Stopped);
    assert_eq!(client.pending_attempt(), Some(0));
    assert_eq!(client.connection(), None);
}

#[test]
fn failed_attempt_leaves_the_client_as_it_was() {
    let mut client = WsClient::new("ws://host/ws".to_string());
    client.start();
    assert_eq!(client.connection_result(0, false), quiet());
    assert_eq!(client.status(), ConnectionStatus::Stopped);
    assert_eq!(client.connection(), None);
    assert_eq!(client.pending_attempt(), None);
    assert_eq!(client.ping_due(0).send, None);
}

#[test]
fn failed_attempt_keeps_the_connection_in_service() {
    let (mut manager, connection) = connected("ws://host/ws");
    let (attempt, _) = manager.start().connect.unwrap();
    assert_eq!(manager.connection_result(attempt, false), quiet());
    assert_eq!(manager.status(), ConnectionStatus::Connected);
    assert_eq!(manager.ping_due(connection).send, Some((connection, Frame::Ping(vec![]))));
}

#[test]
fn established_connection_starts_one_keepalive_task() {
    let mut client = WsClient::new("ws://host/ws".to_string());
    client.start();
    let effects = client.connection_result(0, true);
    let mut expected = quiet();
    expected.spawned = Some(0);
    assert_eq!(effects, expected);
    assert_eq!(client.connection(), Some(0));
    assert_eq!(client.status(), ConnectionStatus::Stopped);
}

#[test]
fn keepalive_ping_is_an_empty_ping_frame() {
    let mut client = WsClient::new("ws://host/ws".to_string());
    client.start();
    client.connection_result(0, true);
    let mut expected = quiet();
    expected.send = Some((0, Frame::Ping(Vec::new())));
    assert_eq!(client.ping_due(0), expected);
    assert_eq!(Frame::keepalive_ping(), Frame::Ping(Vec::new()));
}

#[test]
fn first_ping_makes_the_status_connected() {
    let mut client = WsClient::new("ws://host/ws".to_string());
    client.start();
    client.connection_result(0, true);
    let first = client.ping_result(0, Ok(()));
    let mut expected = quiet();
    expected.notified = Some(ConnectionStatus::Connected);
    expected.wait = Some(30);
    assert_eq!(first, expected);
    assert_eq!(client.status(), ConnectionStatus::Connected);
    let second = client.ping_result(0, Ok(()));
    let mut expected = quiet();
    expected.wait = Some(30);
    assert_eq!(second, expected);
    assert_eq!(client.status(), ConnectionStatus::Connected);
}

#[test]
fn keepalive_interval_is_thirty_seconds() {
    assert_eq!(KEEPALIVE_INTERVAL, 30);
    let (mut manager, connection) = connected("ws://host/ws");
    assert_eq!(manager.ping_result(connection, Ok(())).wait, Some(KEEPALIVE_INTERVAL));
}

#[test]
fn ping_on_a_closed_connection_disconnects_quietly() {
    for failure in [SendFailure::AlreadyClosed, SendFailure::ConnectionClosed] {
        let (mut manager, connection) = connected("ws://host/ws");
        let effects = manager.ping_result(connection, Err(failure));
        let mut expected = quiet();
        expected.notified = Some(ConnectionStatus::Disconnected);
        expected.ended = Some(connection);
        assert_eq!(effects, expected);
        assert_eq!(manager.status(), ConnectionStatus::Disconnected);
    }
}

#[test]
fn ping_that_fails_otherwise_disconnects_with_a_diagnostic() {
    let (mut manager, connection) = connected("ws://host/ws");
    let effects = manager.ping_result(connection, Err(SendFailure::Transport));
    let mut expected = quiet();
    expected.notified = Some(ConnectionStatus::Disconnected);
    expected.ended = Some(connection);
    expected.diagnostic = true;
    assert_eq!(effects, expected);
    assert_eq!(manager.status(), ConnectionStatus::Disconnected);
    assert!(SendFailure::Transport.unexpected());
    assert!(!SendFailure::AlreadyClosed.unexpected());
    assert!(!SendFailure::ConnectionClosed.unexpected());
}

#[test]
fn failed_ping_is_not_tried_again() {
    let (mut manager, connection) = connected("ws://host/ws");
    let failed = manager.ping_result(connection, Err(SendFailure::ConnectionClosed));
    assert_eq!(failed.wait, None);
    assert_eq!(failed.connect, None);
    assert_eq!(manager.ping_due(connection), Effects::dismiss(connection));
    assert_eq!(manager.ping_result(connection, Ok(())), Effects::dismiss(connection));
    assert_eq!(manager.status(), ConnectionStatus::Disconnected);
}

#[test]
fn first_ping_that_fails_disconnects_before_ever_connecting() {
    let mut client = WsClient::new("ws://host/ws".to_string());
    client.start();
    client.connection_result(0, true);
    let effects = client.ping_result(0, Err(SendFailure::Transport));
    assert_eq!(effects.notified, Some(ConnectionStatus::Disconnected));
    assert_eq!(client.status(), ConnectionStatus::Disconnected);
    assert_eq!(client.connection(), None);
}

#[test]
fn connect_then_peer_closes_then_stop() {
    let mut manager = WsManager::new("ws://host/ws".to_string());
    let started = manager.start();
    assert_eq!(started.connect, Some((0, "ws://host/ws".to_string())));
    assert_eq!(manager.connection_result(0, true).spawned, Some(0));

    assert_eq!(manager.ping_due(0).send, Some((0, Frame::Ping(vec![]))));
    let first = manager.ping_result(0, Ok(()));
    assert_eq!(first.wait, Some(30));
    assert_eq!(manager.status(), ConnectionStatus::Connected);

    assert_eq!(manager.ping_due(0).send, Some((0, Frame::Ping(vec![]))));
    let closed = manager.ping_result(0, Err(SendFailure::ConnectionClosed));
    assert_eq!(closed.ended, Some(0));
    assert_eq!(closed.wait, None);
    assert_eq!(manager.status(), ConnectionStatus::Disconnected);

    let stopped = manager.stop();
    assert_eq!(stopped.notified, Some(ConnectionStatus::Stopped));
    assert_eq!(stopped.send, None);
    assert_eq!(manager.status(), ConnectionStatus::Stopped);
    assert_eq!(manager.ping_due(0), Effects::dismiss(0));
    assert_eq!(manager.ping_result(0, Ok(())), Effects::dismiss(0));
    assert_eq!(manager.status(), ConnectionStatus::Stopped);
}

#[test]
fn stop_ends_the_keepalive_task() {
    let (mut manager, connection) = connected("ws://host/ws");
    let effects = manager.stop();
    let mut expected = quiet();
    expected.notified = Some(ConnectionStatus::Stopped);
    expected.ended = Some(connection);
    assert_eq!(effects, expected);
    assert_eq!(manager.status(), ConnectionStatus::Stopped);
}

#[test]
fn no_ping_goes_out_after_stop() {
    let (mut manager, connection) = connected("ws://host/ws");
    manager.stop();
    assert_eq!(manager.ping_due(connection), Effects::dismiss(connection));
    let late = manager.ping_result(connection, Ok(()));
    assert_eq!(late, Effects::dismiss(connection));
    assert_eq!(manager.status(), ConnectionStatus::Stopped);

    let (attempt, _) = manager.start().connect.unwrap();
    assert_ne!(attempt, connection);
    manager.connection_result(attempt, true);
    assert_eq!(manager.ping_due(connection), Effects::dismiss(connection));
    assert_eq!(manager.ping_due(attempt).send, Some((attempt, Frame::Ping(vec![]))));
}

#[test]
fn stop_gives_up_an_attempt_whose_outcome_is_open() {
    let mut client = WsClient::new("ws://host/ws".to_string());
    client.start();
    client.stop();
    assert_eq!(client.pending_attempt(), None);
    assert_eq!(client.connection_result(0, true), Effects::dismiss(0));
    assert_eq!(client.connection(), None);
    assert_eq!(client.status(), ConnectionStatus::Stopped);
    assert_eq!(client.ping_due(0).send, None);
}

#[test]
fn stop_on_a_stopped_client_stores_stopped_again() {
    let mut client = WsClient::new("ws://host/ws".to_string());
    let effects = client.stop();
    let mut expected = quiet();
    expected.notified = Some(ConnectionStatus::Stopped);
    assert_eq!(effects, expected);
    assert_eq!(client.status(), ConnectionStatus::Stopped);
}

#[test]
fn restart_after_stop_uses_a_fresh_connection() {
    let (mut manager, first) = connected("ws://host/ws");
    manager.stop();
    let (second, target) = manager.start().connect.unwrap();
    assert_eq!(target, "ws://host/ws");
    assert!(second > first);
    assert_eq!(manager.connection_result(second, true).spawned, Some(second));
    assert_eq!(manager.status(), ConnectionStatus::Stopped);
    manager.ping_result(second, Ok(()));
    assert_eq!(manager.status(), ConnectionStatus::Connected);
}

#[test]
fn repeated_start_keeps_one_keepalive_task() {
    let mut manager = WsManager::new("ws://host/ws".to_string());
    let mut alive: Vec<u64> = Vec::new();
    for round in 0..5u64 {
        let (attempt, _) = manager.start().connect.unwrap();
        assert_eq!(attempt, round);
        let effects = manager.connection_result(attempt, true);
        if let Some(ended) = effects.ended {
            alive.retain(|task| *task != ended);
        }
        if let Some(spawned) = effects.spawned {
            alive.push(spawned);
        }
        assert_eq!(alive, vec![round]);
    }
    for stale in 0..4u64 {
        assert_eq!(manager.ping_due(stale), Effects::dismiss(stale));
    }
    assert_eq!(manager.ping_due(4).send, Some((4, Frame::Ping(vec![]))));
}

#[test]
fn only_the_latest_attempt_is_taken_into_service() {
    let mut client = WsClient::new("ws://host/ws".to_string());
    client.start();
    client.start();
    client.start();
    assert_eq!(client.pending_attempt(), Some(2));
    assert_eq!(client.connection_result(0, true), Effects::dismiss(0));
    assert_eq!(client.connection_result(1, false), quiet());
    assert_eq!(client.connection(), None);
    assert_eq!(client.connection_result(2, true).spawned, Some(2));
    assert_eq!(client.connection(), Some(2));
    assert_eq!(client.connection_result(2, true), quiet());
    assert_eq!(client.connection_result(7, true), Effects::dismiss(7));
    assert_eq!(client.connection(), Some(2));
}

#[test]
fn new_connection_replaces_the_one_in_service() {
    let (mut manager, first) = connected("ws://host/ws");
    let (second, _) = manager.start().connect.unwrap();
    let effects = manager.connection_result(second, true);
    let mut expected = quiet();
    expected.spawned = Some(second);
    expected.ended = Some(first);
    assert_eq!(effects, expected);
    assert_eq!(manager.status(), ConnectionStatus::Connected);
    assert_eq!(manager.ping_result(first, Err(SendFailure::Transport)), Effects::dismiss(first));
    assert_eq!(manager.status(), ConnectionStatus::Connected);
    assert_eq!(manager.ping_result(second, Ok(())).notified, None);
}

#[test]
fn status_is_always_one_of_three() {
    let texts = ["stopped", "connected", "disconnected"];
    let mut manager = WsManager::new("ws://host/ws".to_string());
    assert!(texts.contains(&manager.status().as_str()));
    for round in 0..6u64 {
        let (attempt, _) = manager.start().connect.unwrap();
        assert!(texts.contains(&manager.status().as_str()));
        manager.connection_result(attempt, round % 2 == 0);
        assert!(texts.contains(&manager.status().as_str()));
        let outcome = if round % 3 == 0 { Ok(()) } else { Err(SendFailure::Transport) };
        manager.ping_result(attempt, outcome);
        assert!(texts.contains(&manager.status().as_str()));
        if round % 2 == 1 {
            manager.stop();
            assert_eq!(manager.status().as_str(), "stopped");
        }
    }
}
