use chat_core::connection::deregister_connection;
use chat_core::connection::register_connection;
use chat_core::connection::register_connection_with;
use chat_core::connection::ConnectionManager;
use chat_core::connection::WsConnection;
use chat_core::websocket::handle_event;
use chat_core::websocket::on_event;
use chat_core::websocket::Event;
use chat_core::websocket::Reply;
use chat_core::websocket::Step;

const NOW: i64 = 1_700_000_000;

fn conn(user_id: u128, device_id: i64, conn_id: u128) -> WsConnection {
    WsConnection { user_id, device_id, conn_id, established_at: NOW }
}

#[test]
fn a_new_directory_is_empty() {
    let manager = ConnectionManager::new();
    assert_eq!(manager.connection_count(), 0);
    assert_eq!(manager.get_connection(&1), None);
    assert!(manager.get_user_connections(&1).is_empty());
}

#[test]
fn a_registered_connection_is_found() {
    let mut manager = ConnectionManager::new();
    let id = register_connection_with(&mut manager, 7, 3, 99, NOW);
    assert_eq!(id, 99);
    assert_eq!(manager.get_connection(&99), Some(conn(7, 3, 99)));
    assert_eq!(manager.connection_count(), 1);
}

#[test]
fn a_deregistered_connection_is_not_found() {
    let mut manager = ConnectionManager::new();
    register_connection_with(&mut manager, 7, 3, 99, NOW);
    deregister_connection(&mut manager, 99);
    assert_eq!(manager.get_connection(&99), None);
    assert_eq!(manager.connection_count(), 0);
    deregister_connection(&mut manager, 99);
    assert_eq!(manager.connection_count(), 0);
}

#[test]
fn registering_an_id_again_replaces_the_entry() {
    let mut manager = ConnectionManager::new();
    register_connection_with(&mut manager, 7, 3, 99, NOW);
    register_connection_with(&mut manager, 8, 4, 99, NOW + 1);
    assert_eq!(manager.connection_count(), 1);
    assert_eq!(
        manager.get_connection(&99),
        Some(WsConnection { user_id: 8, device_id: 4, conn_id: 99, established_at: NOW + 1 })
    );
    assert!(manager.get_user_connections(&7).is_empty());
    assert_eq!(manager.get_user_connections(&8).len(), 1);
}

#[test]
fn removal_hands_the_connection_back() {
    let mut manager = ConnectionManager::new();
    manager.add_connection(conn(7, 3, 99));
    manager.add_connection(conn(7, 4, 100));
    assert_eq!(manager.remove_connection(&99), Some(conn(7, 3, 99)));
    assert_eq!(manager.remove_connection(&99), None);
    assert_eq!(manager.get_connection(&100), Some(conn(7, 4, 100)));
    assert_eq!(manager.connection_count(), 1);
}

#[test]
fn connections_of_a_user_are_listed_once_each() {
    let mut manager = ConnectionManager::new();
    manager.add_connection(conn(7, 1, 10));
    manager.add_connection(conn(8, 2, 11));
    manager.add_connection(conn(7, 3, 12));
    manager.add_connection(conn(7, 1, 10));
    let mut ids: Vec<u128> = manager.get_user_connections(&7).iter().map(|c| c.conn_id).collect();
    ids.sort();
    assert_eq!(ids, vec![10, 12]);
    assert_eq!(manager.get_user_connections(&8), vec![conn(8, 2, 11)]);
    assert!(manager.get_user_connections(&9).is_empty());
    assert_eq!(manager.connection_count(), 3);
}

#[test]
fn register_connection_draws_a_fresh_id() {
    let mut manager = ConnectionManager::new();
    let a = register_connection(&mut manager, 7, 3);
    let b = register_connection(&mut manager, 7, 3);
    assert_ne!(a, b);
    assert_eq!(manager.connection_count(), 2);
    let found = manager.get_connection(&a).expect("a connection");
    assert_eq!(found.user_id, 7);
    assert_eq!(found.device_id, 3);
    assert_eq!(found.conn_id, a);
    assert_eq!(uuid::Uuid::from_u128(a).get_version_num(), 4);
    let now = chrono::Utc::now().timestamp();
    assert!(found.established_at <= now && now - found.established_at < 5);
}

#[test]
fn text_is_echoed_behind_the_prefix() {
    assert_eq!(
        on_event(Event::Text("hello".to_string())),
        Step { reply: Reply::Text("Echo: hello".to_string()), done: false }
    );
    assert_eq!(
        on_event(Event::Text(String::new())),
        Step { reply: Reply::Text("Echo: ".to_string()), done: false }
    );
}

#[test]
fn bytes_and_pings_come_back() {
    assert_eq!(
        on_event(Event::Binary(vec![1, 2, 3])),
        Step { reply: Reply::Binary(vec![1, 2, 3]), done: false }
    );
    assert_eq!(on_event(Event::Ping(vec![9])), Step { reply: Reply::Pong(vec![9]), done: false });
    assert_eq!(on_event(Event::Other), Step { reply: Reply::Nothing, done: false });
}

#[test]
fn close_end_and_fault_stop_the_reading() {
    for event in [Event::Close, Event::End, Event::Fault] {
        assert_eq!(on_event(event), Step { reply: Reply::Nothing, done: true });
    }
}

#[test]
fn a_connection_that_stops_is_taken_off_the_list() {
    for event in [Event::Close, Event::End, Event::Fault] {
        let mut manager = ConnectionManager::new();
        manager.add_connection(conn(7, 3, 99));
        manager.add_connection(conn(7, 3, 100));
        let step = handle_event(&mut manager, 99, Event::Text("a".to_string()));
        assert!(!step.done);
        assert_eq!(manager.connection_count(), 2);
        let step = handle_event(&mut manager, 99, event);
        assert!(step.done);
        assert_eq!(manager.get_connection(&99), None);
        assert_eq!(manager.get_connection(&100), Some(conn(7, 3, 100)));
    }
}

#[test]
fn a_shared_directory_lists_and_forgets() {
    let shared = chat_core::connection::SharedConnections::new();
    assert_eq!(shared.connection_count(), 0);
    shared.add_connection(conn(7, 3, 99));
    shared.add_connection(conn(7, 4, 100));
    shared.add_connection(conn(8, 5, 99));
    assert_eq!(shared.connection_count(), 2);
    assert_eq!(shared.get_connection(&99), Some(conn(8, 5, 99)));
    assert_eq!(shared.get_user_connections(&7), vec![conn(7, 4, 100)]);
    assert_eq!(shared.remove_connection(&99), Some(conn(8, 5, 99)));
    assert_eq!(shared.remove_connection(&99), None);
    assert_eq!(shared.get_connection(&99), None);
    let id = shared.register(7, 3);
    assert_eq!(shared.get_connection(&id).map(|c| c.device_id), Some(3));
    assert_eq!(shared.get_user_connections(&7).len(), 2);
}

#[test]
fn a_shared_connection_that_stops_is_taken_off_the_list() {
    let shared = chat_core::connection::SharedConnections::new();
    let id = shared.register(7, 3);
    let step = chat_core::websocket::handle_shared_event(&shared, id, Event::Ping(vec![1]));
    assert_eq!(step, Step { reply: Reply::Pong(vec![1]), done: false });
    assert_eq!(shared.connection_count(), 1);
    let step = chat_core::websocket::handle_shared_event(&shared, id, Event::Fault);
    assert!(step.done);
    assert_eq!(shared.get_connection(&id), None);
}
