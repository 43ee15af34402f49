use ravia_engine::Error;
use ravia_engine::Resource;
use ravia_engine::ResourceManager;
use ravia_engine::ResourceState;

fn request_key(manager: &mut ResourceManager, path: &str) -> ravia_engine::ResourceKey {
    let mut res = Resource::new(path);
    manager.request(&mut res);
    res.key().expect("request attaches a key")
}

#[test]
fn issued_keys_are_distinct_and_increasing() {
    let mut manager = ResourceManager::new();
    let k1 = request_key(&mut manager, "a.bin");
    let k2 = request_key(&mut manager, "b.bin");
    let k3 = request_key(&mut manager, "c.bin");
    assert!(k1 != k2 && k2 != k3 && k1 != k3);
    assert!(k1 < k2 && k2 < k3);
}

#[test]
fn request_attaches_a_key_exactly_once() {
    let mut manager = ResourceManager::new();
    let mut res = Resource::new("model.obj");
    assert!(res.should_request());
    assert!(res.key().is_none());

    manager.request(&mut res);
    assert!(!res.should_request());
    let key = res.key().expect("request attaches a key");

    // A second request is a no-op: no second enqueue, same key, same entry.
    assert_eq!(manager.pending_count(), 1);
    manager.request(&mut res);
    assert_eq!(manager.pending_count(), 1);
    assert_eq!(res.key().expect("key stays attached"), key);
    assert!(matches!(manager.get(key), ResourceState::Loading));
}

#[test]
fn get_returns_loading_immediately_after_request() {
    let mut manager = ResourceManager::new();
    let key = request_key(&mut manager, "a.bin");
    assert!(matches!(manager.get(key), ResourceState::Loading));
}

#[test]
fn terminal_state_is_written_once() {
    let mut manager = ResourceManager::new();
    let key = request_key(&mut manager, "a.bin");

    manager.complete(key, Ok(vec![1, 2, 3]));
    match manager.get(key) {
        ResourceState::Loaded(data) => assert_eq!(data, vec![1, 2, 3]),
        other => panic!("expected Loaded, got {:?}", other),
    }

    // A later write for the same key changes nothing.
    manager.complete(key, Err(Error::Unknown));
    match manager.get(key) {
        ResourceState::Loaded(data) => assert_eq!(data, vec![1, 2, 3]),
        other => panic!("expected Loaded, got {:?}", other),
    }
    manager.complete(key, Ok(vec![9]));
    match manager.get(key) {
        ResourceState::Loaded(data) => assert_eq!(data, vec![1, 2, 3]),
        other => panic!("expected Loaded, got {:?}", other),
    }
}

#[test]
fn loaded_bytes_round_trip() {
    let mut manager = ResourceManager::new();
    let key = request_key(&mut manager, "a.bin");
    manager.complete(key, Ok(b"ABC".to_vec()));
    match manager.get(key) {
        ResourceState::Loaded(data) => assert_eq!(data, b"ABC".to_vec()),
        other => panic!("expected Loaded, got {:?}", other),
    }
}

#[test]
fn an_empty_file_loads_as_empty_bytes() {
    let mut manager = ResourceManager::new();
    let key = request_key(&mut manager, "empty.bin");
    manager.complete(key, Ok(Vec::new()));
    match manager.get(key) {
        ResourceState::Loaded(data) => assert!(data.is_empty()),
        other => panic!("expected Loaded, got {:?}", other),
    }
}

#[test]
fn missing_resource_maps_to_not_found() {
    let mut manager = ResourceManager::new();
    let mut res = Resource::new("missing.bin");
    manager.request(&mut res);
    let key = res.key().expect("request attaches a key");
    manager.complete(key, Err(Error::NotFound(res.clone())));
    match manager.get(key) {
        ResourceState::Error(e) => assert_eq!(e, Error::NotFound(res)),
        other => panic!("expected Error, got {:?}", other),
    }
}

#[test]
fn failed_read_maps_to_load_failed() {
    let mut manager = ResourceManager::new();
    let mut res = Resource::new("truncated.bin");
    manager.request(&mut res);
    let key = res.key().expect("request attaches a key");
    manager.complete(key, Err(Error::LoadFailed(res.clone())));
    match manager.get(key) {
        ResourceState::Error(e) => assert_eq!(e, Error::LoadFailed(res)),
        other => panic!("expected Error, got {:?}", other),
    }
}

#[test]
fn unknown_key_degrades_to_unknown_error() {
    let mut other_manager = ResourceManager::new();
    let foreign_key = request_key(&mut other_manager, "a.bin");

    let manager = ResourceManager::new();
    match manager.get(foreign_key) {
        ResourceState::Error(e) => assert_eq!(e, Error::Unknown),
        other => panic!("expected Error(Unknown), got {:?}", other),
    }
}

#[test]
fn keys_settle_independently() {
    let mut manager = ResourceManager::new();
    let mut found = Resource::new("a.bin");
    let mut missing = Resource::new("missing.bin");
    manager.request(&mut found);
    manager.request(&mut missing);
    let found_key = found.key().expect("request attaches a key");
    let missing_key = missing.key().expect("request attaches a key");

    // Loads finish out of submission order.
    manager.complete(missing_key, Err(Error::NotFound(missing.clone())));
    assert!(matches!(manager.get(found_key), ResourceState::Loading));
    manager.complete(found_key, Ok(b"ABC".to_vec()));

    match manager.get(found_key) {
        ResourceState::Loaded(data) => assert_eq!(data, b"ABC".to_vec()),
        other => panic!("expected Loaded, got {:?}", other),
    }
    match manager.get(missing_key) {
        ResourceState::Error(e) => assert_eq!(e, Error::NotFound(missing)),
        other => panic!("expected Error, got {:?}", other),
    }
}

#[test]
fn dispatcher_takes_requests_in_order() {
    let mut manager = ResourceManager::new();
    let mut first = Resource::new("a.bin");
    let mut second = Resource::new("b.bin");
    manager.request(&mut first);
    manager.request(&mut second);
    assert_eq!(manager.pending_count(), 2);

    let item = manager.next_request().expect("two requests are pending");
    assert_eq!(item.path, "a.bin");
    assert_eq!(item.key(), first.key());
    let item = manager.next_request().expect("one request is pending");
    assert_eq!(item.path, "b.bin");
    assert_eq!(item.key(), second.key());
    assert!(manager.next_request().is_none());
    assert_eq!(manager.pending_count(), 0);
}

#[test]
fn snapshots_of_a_terminal_state_are_identical() {
    let mut manager = ResourceManager::new();
    let key = request_key(&mut manager, "a.bin");
    manager.complete(key, Ok(vec![42; 8]));
    let first = manager.get(key);
    let second = manager.get(key);
    match (first, second) {
        (ResourceState::Loaded(a), ResourceState::Loaded(b)) => assert_eq!(a, b),
        other => panic!("expected two Loaded states, got {:?}", other),
    }
}
