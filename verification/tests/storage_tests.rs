use grabber_sfu::server::storage::Storage;

#[test]
fn empty_registry_finds_nobody() {
    let storage = Storage::new();
    assert!(storage.get_peer_by_name("alice").is_none());
    assert!(storage.get_all_statuses().is_empty());
}

#[test]
fn registered_peer_is_found_by_name() {
    let mut storage = Storage::new();
    storage.add_peer_at("alice".to_string(), "grabber-1".to_string(), 1700000000);
    let peer = storage.get_peer_by_name("alice").unwrap();
    assert_eq!(peer.name, "alice");
    assert_eq!(peer.socket_id, "grabber-1");
    assert!(peer.online);
    assert_eq!(peer.connections, 0);
    assert!(peer.stream_types.is_empty());
    assert_eq!(peer.last_ping, 1700000000);
    assert!(storage.get_peer_by_name("bob").is_none());
    assert!(storage.get_peer_by_name("").is_none());
}

#[test]
fn registration_reads_the_clock() {
    let mut storage = Storage::new();
    storage.add_peer("alice".to_string(), "grabber-1".to_string());
    let peer = storage.get_peer_by_name("alice").unwrap();
    assert_eq!(peer.socket_id, "grabber-1");
    assert!(peer.last_ping > 1_600_000_000);
}

#[test]
fn new_registration_replaces_the_old_one() {
    let mut storage = Storage::new();
    storage.add_peer_at("alice".to_string(), "grabber-1".to_string(), 1);
    storage.update_ping_at("grabber-1", 4, vec!["webcam".to_string()], 2);
    storage.add_peer_at("alice".to_string(), "grabber-2".to_string(), 3);
    let peer = storage.get_peer_by_name("alice").unwrap();
    assert_eq!(peer.socket_id, "grabber-2");
    assert_eq!(peer.connections, 0);
    assert!(peer.stream_types.is_empty());
    assert_eq!(peer.last_ping, 3);
    assert_eq!(storage.get_all_statuses().len(), 1);
}

#[test]
fn ping_updates_the_status_of_its_socket() {
    let mut storage = Storage::new();
    storage.add_peer_at("alice".to_string(), "grabber-1".to_string(), 10);
    storage.add_peer_at("bob".to_string(), "grabber-2".to_string(), 11);
    storage.update_ping_at(
        "grabber-2",
        3,
        vec!["webcam".to_string(), "screen".to_string()],
        20,
    );
    let bob = storage.get_peer_by_name("bob").unwrap();
    assert_eq!(bob.name, "bob");
    assert_eq!(bob.socket_id, "grabber-2");
    assert_eq!(bob.connections, 3);
    assert_eq!(bob.stream_types, vec!["webcam".to_string(), "screen".to_string()]);
    assert_eq!(bob.last_ping, 20);
    assert!(bob.online);
    let alice = storage.get_peer_by_name("alice").unwrap();
    assert_eq!(alice.connections, 0);
    assert_eq!(alice.last_ping, 10);
}

#[test]
fn ping_of_an_unknown_socket_changes_nothing() {
    let mut storage = Storage::new();
    storage.add_peer_at("alice".to_string(), "grabber-1".to_string(), 10);
    storage.update_ping_at("grabber-9", 3, vec!["webcam".to_string()], 20);
    storage.update_ping("grabber-9", 3, vec![]);
    let alice = storage.get_peer_by_name("alice").unwrap();
    assert_eq!(alice.connections, 0);
    assert_eq!(alice.last_ping, 10);
    assert_eq!(storage.get_all_statuses().len(), 1);
}

#[test]
fn ping_with_the_clock() {
    let mut storage = Storage::new();
    storage.add_peer_at("alice".to_string(), "grabber-1".to_string(), 10);
    storage.update_ping("grabber-1", 2, vec!["webcam".to_string()]);
    let alice = storage.get_peer_by_name("alice").unwrap();
    assert_eq!(alice.connections, 2);
    assert!(alice.last_ping > 1_600_000_000);
}

#[test]
fn ping_updates_the_first_name_of_a_socket() {
    let mut storage = Storage::new();
    storage.add_peer_at("zed".to_string(), "grabber-0".to_string(), 10);
    storage.add_peer_at("alice".to_string(), "grabber-1".to_string(), 10);
    storage.add_peer_at("alias".to_string(), "grabber-1".to_string(), 10);
    storage.update_ping_at("grabber-1", 5, vec![], 30);
    let alice = storage.get_peer_by_name("alice").unwrap();
    assert_eq!(alice.connections, 5);
    assert_eq!(alice.last_ping, 30);
    let alias = storage.get_peer_by_name("alias").unwrap();
    assert_eq!(alias.connections, 0);
    assert_eq!(alias.last_ping, 10);
    assert_eq!(storage.get_peer_by_name("zed").unwrap().last_ping, 10);
}

#[test]
fn removal_takes_every_name_of_the_socket() {
    let mut storage = Storage::new();
    storage.add_peer_at("alice".to_string(), "grabber-1".to_string(), 10);
    storage.add_peer_at("alias".to_string(), "grabber-1".to_string(), 10);
    storage.add_peer_at("bob".to_string(), "grabber-2".to_string(), 11);
    storage.remove_peer_by_socket_id("grabber-1");
    assert!(storage.get_peer_by_name("alice").is_none());
    assert!(storage.get_peer_by_name("alias").is_none());
    assert_eq!(storage.get_peer_by_name("bob").unwrap().socket_id, "grabber-2");
    storage.remove_peer_by_socket_id("grabber-1");
    storage.remove_peer_by_socket_id("nobody");
    assert_eq!(storage.get_all_statuses().len(), 1);
}

#[test]
fn registration_holds_until_its_socket_is_removed() {
    let mut storage = Storage::new();
    storage.add_peer_at("alice".to_string(), "grabber-1".to_string(), 10);
    storage.add_peer_at("bob".to_string(), "grabber-2".to_string(), 11);
    storage.update_ping_at("grabber-2", 1, vec![], 12);
    storage.update_ping_at("grabber-1", 1, vec![], 13);
    storage.remove_peer_by_socket_id("grabber-2");
    assert_eq!(storage.get_peer_by_name("alice").unwrap().socket_id, "grabber-1");
    storage.remove_peer_by_socket_id("grabber-1");
    assert!(storage.get_peer_by_name("alice").is_none());
}

#[test]
fn listing_holds_every_peer_once_in_registration_order() {
    let mut storage = Storage::new();
    for i in 0..20 {
        storage.add_peer_at(format!("peer-{}", i), format!("grabber-{}", i), i);
    }
    storage.add_peer_at("peer-3".to_string(), "grabber-33".to_string(), 99);
    let names: Vec<String> = storage.get_all_statuses().into_iter().map(|p| p.name).collect();
    let expected: Vec<String> = (0..20).map(|i| format!("peer-{}", i)).collect();
    assert_eq!(names, expected);
    assert_eq!(storage.get_peer_by_name("peer-3").unwrap().socket_id, "grabber-33");
    storage.remove_peer_by_socket_id("grabber-0");
    storage.remove_peer_by_socket_id("grabber-10");
    storage.remove_peer_by_socket_id("grabber-19");
    storage.remove_peer_by_socket_id("grabber-3");
    let names: Vec<String> = storage.get_all_statuses().into_iter().map(|p| p.name).collect();
    let expected: Vec<String> = (0..20)
        .filter(|i| *i != 0 && *i != 10 && *i != 19)
        .map(|i| format!("peer-{}", i))
        .collect();
    assert_eq!(names, expected);
    for status in storage.get_all_statuses() {
        let by_name = storage.get_peer_by_name(&status.name).unwrap();
        assert_eq!(by_name.socket_id, status.socket_id);
        assert_eq!(by_name.last_ping, status.last_ping);
    }
}
