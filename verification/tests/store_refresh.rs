use unifi_core::controller::{integration_snapshot, legacy_snapshot};
use unifi_core::entity_id::{EntityId, MacAddress};
use unifi_core::legacy::LegacyDevice;
use unifi_core::model::{DataSource, Device, DeviceState, DeviceStats, DeviceType};
use unifi_core::store::DataStore;

fn device(id: u128, mac: &str, name: &str) -> Device {
    Device {
        id: EntityId::Uuid(id),
        mac: MacAddress::new(mac),
        ip: None,
        wan_ipv6: None,
        name: Some(name.to_string()),
        model: None,
        device_type: DeviceType::Switch,
        state: DeviceState::Online,
        firmware_version: None,
        firmware_updatable: false,
        serial: None,
        supported: true,
        uplink_device_mac: None,
        has_switching: true,
        has_access_point: false,
        stats: DeviceStats { uptime_secs: None, uplink_bandwidth: None },
        client_count: None,
        origin: None,
        source: DataSource::IntegrationApi,
    }
}

fn snapshot_of(devices: Vec<Device>) -> unifi_core::store::RefreshSnapshot {
    integration_snapshot(
        devices,
        Vec::new(),
        Vec::new(),
        Vec::new(),
        Vec::new(),
        Vec::new(),
        Vec::new(),
        Vec::new(),
        Ok(Vec::new()),
        Ok(Vec::new()),
        Ok(Vec::new()),
        None,
    )
}

#[test]
fn refresh_is_read_back_by_mac_and_id() {
    let mut store = DataStore::new();
    store.apply_integration_snapshot_at(
        snapshot_of(vec![device(1, "AA:AA:AA:AA:AA:01", "a"), device(2, "aa:aa:aa:aa:aa:02", "b")]),
        5_000,
    );
    assert_eq!(store.device_count(), 2);
    let a = store.device_by_mac(&MacAddress::new("aa:aa:aa:aa:aa:01")).expect("by mac");
    assert_eq!(a.name.as_deref(), Some("a"));
    let b = store.device_by_id(&EntityId::Uuid(2)).expect("by id");
    assert_eq!(b.mac.as_str(), "aa:aa:aa:aa:aa:02");
    assert_eq!(store.last_full_refresh, Some(5_000));
    assert_eq!(store.data_age_at(7_500), Some(2_500));
}

#[test]
fn refresh_prunes_what_the_snapshot_lacks() {
    let mut store = DataStore::new();
    store.apply_integration_snapshot_at(
        snapshot_of(vec![device(1, "aa:aa:aa:aa:aa:01", "a"), device(2, "aa:aa:aa:aa:aa:02", "b")]),
        1,
    );
    store.apply_integration_snapshot_at(snapshot_of(vec![device(2, "aa:aa:aa:aa:aa:02", "b2")]), 2);
    assert_eq!(store.device_count(), 1);
    assert!(store.device_by_id(&EntityId::Uuid(1)).is_none());
    assert!(store.device_by_mac(&MacAddress::new("aa:aa:aa:aa:aa:01")).is_none());
    assert_eq!(
        store.device_by_id(&EntityId::Uuid(2)).and_then(|d| d.name.clone()).as_deref(),
        Some("b2")
    );
}

#[test]
fn later_entity_with_the_same_key_wins() {
    let mut store = DataStore::new();
    store.apply_integration_snapshot_at(
        snapshot_of(vec![device(1, "aa:aa:aa:aa:aa:01", "old"), device(3, "aa:aa:aa:aa:aa:01", "new")]),
        1,
    );
    assert_eq!(store.device_count(), 1);
    let d = store.device_by_mac(&MacAddress::new("aa:aa:aa:aa:aa:01")).expect("stored");
    assert_eq!(d.name.as_deref(), Some("new"));
    assert!(store.device_by_id(&EntityId::Uuid(3)).is_some());
}

#[test]
fn refresh_with_the_clock_records_a_time() {
    let mut store = DataStore::new();
    assert!(store.data_age().is_none());
    store.apply_integration_snapshot(snapshot_of(Vec::new()));
    assert!(store.last_full_refresh.is_some());
    assert!(store.data_age().is_some());
}

#[test]
fn legacy_supplement_never_overrides_integration_data() {
    let mut store = DataStore::new();
    store.apply_integration_snapshot_at(snapshot_of(vec![device(1, "aa:aa:aa:aa:aa:01", "integration")]), 1);
    let legacy = |mac: &str, name: &str| {
        Device::from_legacy(LegacyDevice {
            id: "5f00".to_string(),
            mac: mac.to_string(),
            ip: None,
            name: Some(name.to_string()),
            model: None,
            device_type: "usw".to_string(),
            state: 1,
            version: None,
            upgradable: None,
            serial: None,
            uptime: None,
            num_sta: None,
        })
    };
    let snap = legacy_snapshot(
        vec![legacy("AA:AA:AA:AA:AA:01", "legacy"), legacy("aa:aa:aa:aa:aa:09", "extra")],
        Vec::new(),
    );
    store.apply_legacy_snapshot(snap.devices, snap.clients, snap.events);
    assert_eq!(store.device_count(), 2);
    let d = store.device_by_mac(&MacAddress::new("aa:aa:aa:aa:aa:01")).expect("kept");
    assert_eq!(d.name.as_deref(), Some("integration"));
    assert!(store.device_by_mac(&MacAddress::new("aa:aa:aa:aa:aa:09")).is_some());
}
