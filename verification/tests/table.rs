use specter_registry::config::{Configuration, RawSettings};
use specter_registry::error::InternalFault;
use specter_registry::handle::{Handle, ResourceKind};
use specter_registry::table::{Resource, ResourceTable};

fn configuration() -> Configuration {
    Configuration::validate(RawSettings {
        ice_servers: vec!["stun:stun.example.org".to_string()],
        relay_only: false,
    })
    .unwrap()
}

#[test]
fn empty_table_holds_nothing() {
    let table: ResourceTable<u32> = ResourceTable::new();
    assert!(!table.contains(Handle::from_raw(1), ResourceKind::Registry));
    assert_eq!(table.lookup(Handle::from_raw(1), ResourceKind::Registry), None);
    assert_eq!(table.get_config(Handle::from_raw(1)), None);
}

#[test]
fn inserted_resource_is_found_under_its_kind() {
    let mut table: ResourceTable<u32> = ResourceTable::new();
    assert_eq!(table.insert(Handle::from_raw(5), Resource::MediaEngine(77)), Ok(()));
    assert!(table.contains(Handle::from_raw(5), ResourceKind::MediaEngine));
    assert_eq!(
        table.lookup(Handle::from_raw(5), ResourceKind::MediaEngine),
        Some(&Resource::MediaEngine(77))
    );
}

#[test]
fn resource_is_not_found_under_another_kind() {
    let mut table: ResourceTable<u32> = ResourceTable::new();
    table.insert(Handle::from_raw(5), Resource::MediaEngine(77)).unwrap();
    for kind in [
        ResourceKind::Configuration,
        ResourceKind::Registry,
        ResourceKind::Api,
        ResourceKind::PeerConnection,
    ] {
        assert!(!table.contains(Handle::from_raw(5), kind));
        assert_eq!(table.lookup(Handle::from_raw(5), kind), None);
    }
    assert_eq!(table.get_config(Handle::from_raw(5)), None);
}

#[test]
fn duplicate_handle_is_a_fault_and_keeps_the_first_entry() {
    let mut table: ResourceTable<u32> = ResourceTable::new();
    assert_eq!(table.insert(Handle::from_raw(1), Resource::Registry(10)), Ok(()));
    assert_eq!(
        table.insert(Handle::from_raw(1), Resource::Api(20)),
        Err(InternalFault::DuplicateHandle)
    );
    assert_eq!(
        table.lookup(Handle::from_raw(1), ResourceKind::Registry),
        Some(&Resource::Registry(10))
    );
    assert!(!table.contains(Handle::from_raw(1), ResourceKind::Api));
}

#[test]
fn configuration_is_read_back() {
    let mut table: ResourceTable<u32> = ResourceTable::new();
    table.insert(Handle::from_raw(3), Resource::Configuration(configuration())).unwrap();
    assert!(table.contains(Handle::from_raw(3), ResourceKind::Configuration));
    assert_eq!(table.get_config(Handle::from_raw(3)), Some(&configuration()));
    assert_eq!(table.get_config(Handle::from_raw(4)), None);
}

#[test]
fn entries_do_not_disturb_each_other() {
    let mut table: ResourceTable<&'static str> = ResourceTable::new();
    table.insert(Handle::from_raw(1), Resource::Registry("registry")).unwrap();
    table.insert(Handle::from_raw(2), Resource::MediaEngine("engine")).unwrap();
    table.insert(Handle::from_raw(3), Resource::Api("api")).unwrap();
    table.insert(Handle::from_raw(4), Resource::PeerConnection("peer")).unwrap();
    assert_eq!(
        table.lookup(Handle::from_raw(1), ResourceKind::Registry),
        Some(&Resource::Registry("registry"))
    );
    assert_eq!(
        table.lookup(Handle::from_raw(4), ResourceKind::PeerConnection),
        Some(&Resource::PeerConnection("peer"))
    );
    assert!(!table.contains(Handle::from_raw(5), ResourceKind::PeerConnection));
    assert!(!table.contains(Handle::from_raw(0), ResourceKind::Registry));
}

#[test]
fn resource_tells_its_kind_and_content() {
    let engine: Resource<u32> = Resource::MediaEngine(7);
    assert_eq!(engine.kind(), ResourceKind::MediaEngine);
    assert_eq!(engine.native(), Some(&7));
    assert_eq!(engine.configuration(), None);
    let stored: Resource<u32> = Resource::Configuration(configuration());
    assert_eq!(stored.kind(), ResourceKind::Configuration);
    assert_eq!(stored.native(), None);
    assert_eq!(stored.configuration(), Some(&configuration()));
    assert_eq!(Resource::Registry(1u32).kind(), ResourceKind::Registry);
    assert_eq!(Resource::Api(1u32).kind(), ResourceKind::Api);
    assert_eq!(Resource::PeerConnection(1u32).kind(), ResourceKind::PeerConnection);
}
