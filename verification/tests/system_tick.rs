use ravia_engine::bind_mesh;
use ravia_engine::request_resource;
use ravia_engine::system;
use ravia_engine::Resource;
use ravia_engine::ResourceManager;
use ravia_engine::ResourceState;

#[test]
fn request_resource_skips_a_requested_record() {
    let mut manager = ResourceManager::new();
    let mut res = Resource::new("a.bin");
    request_resource(&mut manager, &mut res);
    let key = res.key().expect("the pass attaches a key");
    assert_eq!(manager.pending_count(), 1);

    request_resource(&mut manager, &mut res);
    assert_eq!(res.key().expect("key stays attached"), key);
    assert_eq!(manager.pending_count(), 1);
}

#[test]
fn bind_mesh_hands_out_only_loaded_bytes() {
    let mut manager = ResourceManager::new();
    let unrequested = Resource::new("a.bin");
    assert!(bind_mesh(&manager, &unrequested).is_none());

    let mut res = Resource::new("a.bin");
    request_resource(&mut manager, &mut res);
    assert!(bind_mesh(&manager, &res).is_none());

    let key = res.key().expect("the pass attaches a key");
    manager.complete(key, Ok(b"OBJ".to_vec()));
    assert_eq!(bind_mesh(&manager, &res), Some(b"OBJ".to_vec()));
}

#[test]
fn one_tick_requests_and_binds_each_record_on_its_own() {
    let mut manager = ResourceManager::new();
    let mut records = vec![Resource::new("a.bin"), Resource::new("missing.bin")];

    // First tick: both records are requested and nothing is loaded yet.
    let bound = system(&mut manager, &mut records);
    assert_eq!(bound, vec![None, None]);
    assert_eq!(manager.pending_count(), 2);
    let first_key = records[0].key().expect("the tick attaches a key");
    let second_key = records[1].key().expect("the tick attaches a key");
    assert!(first_key != second_key);
    assert!(matches!(manager.get(first_key), ResourceState::Loading));

    // The loads finish between ticks, one of them with an error.
    manager.complete(first_key, Ok(b"ABC".to_vec()));
    manager.complete(
        second_key,
        Err(ravia_engine::Error::NotFound(records[1].clone())),
    );

    // Second tick: no re-request, no second enqueue, and only the finished
    // load binds.
    let bound = system(&mut manager, &mut records);
    assert_eq!(records[0].key().expect("key stays attached"), first_key);
    assert_eq!(records[1].key().expect("key stays attached"), second_key);
    assert_eq!(bound, vec![Some(b"ABC".to_vec()), None]);
    assert_eq!(manager.pending_count(), 2);
}

#[test]
fn a_tick_over_no_records_does_nothing() {
    let mut manager = ResourceManager::new();
    let mut records: Vec<Resource> = Vec::new();
    let bound = system(&mut manager, &mut records);
    assert!(bound.is_empty());
    assert!(records.is_empty());
    assert_eq!(manager.pending_count(), 0);
}

#[test]
fn a_tick_leaves_foreign_entries_alone() {
    let mut manager = ResourceManager::new();
    let mut earlier = Resource::new("earlier.bin");
    manager.request(&mut earlier);
    let earlier_key = earlier.key().expect("request attaches a key");
    manager.complete(earlier_key, Ok(vec![7]));

    let mut records = vec![Resource::new("a.bin")];
    let _ = system(&mut manager, &mut records);
    match manager.get(earlier_key) {
        ResourceState::Loaded(data) => assert_eq!(data, vec![7]),
        other => panic!("expected Loaded, got {:?}", other),
    }
}
