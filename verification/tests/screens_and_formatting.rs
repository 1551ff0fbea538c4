use std::sync::Arc;

use unifi_core::action::{Action, DeviceDetailTab};
use unifi_core::devices::DevicesScreenState;
use unifi_core::entity_id::{EntityId, MacAddress};
use unifi_core::events::{push_bounded, DashboardHistory, EventsScreenState};
use unifi_core::filter::{device_counts, filter_devices, DeviceFilter};
use unifi_core::fmt::{bool_label, fmt_uptime, format_lease_time, refresh_age_str};
use unifi_core::keys::{KeyCode, KeyModifiers, KeyPress};
use unifi_core::model::{
    Bandwidth, DataSource, Device, DeviceState, DeviceStats, DeviceType, Event, EventCategory,
    EventSeverity,
};
use unifi_core::platform::ControllerPlatform;
use unifi_core::screen::ScreenId;
use unifi_core::screens::Screens;

fn plain(code: KeyCode) -> KeyPress {
    KeyPress {
        code,
        modifiers: KeyModifiers { control: false, shift: false, alt: false, other: false },
    }
}

fn device(name: &str, t: DeviceType, state: DeviceState) -> Arc<Device> {
    Arc::new(Device {
        id: EntityId::from_text(name),
        mac: MacAddress::new("aa:bb:cc:dd:ee:ff"),
        ip: None,
        wan_ipv6: None,
        name: Some(name.to_string()),
        model: None,
        device_type: t,
        state,
        firmware_version: None,
        firmware_updatable: false,
        serial: None,
        supported: true,
        uplink_device_mac: None,
        has_switching: false,
        has_access_point: false,
        stats: DeviceStats { uptime_secs: None, uplink_bandwidth: None },
        client_count: None,
        origin: None,
        source: DataSource::IntegrationApi,
    })
}

fn event(msg: &str) -> Arc<Event> {
    Arc::new(Event {
        id: None,
        timestamp_millis: 0,
        category: EventCategory::Device,
        severity: EventSeverity::Info,
        event_type: "EVT".into(),
        message: msg.into(),
        device_mac: None,
        client_mac: None,
        site_id: None,
        raw_key: None,
        source: DataSource::LegacyApi,
    })
}

#[test]
fn uptime_and_lease_formats() {
    assert_eq!(fmt_uptime(47 * 86400 + 5), "47d");
    assert_eq!(fmt_uptime(4 * 3600 + 23 * 60), "4h 23m");
    assert_eq!(fmt_uptime(12 * 60 + 59), "12m");
    assert_eq!(format_lease_time(86400), "1d");
    assert_eq!(format_lease_time(7200), "2h");
    assert_eq!(format_lease_time(90), "90s");
    assert_eq!(format_lease_time(120), "2m");
    assert_eq!(bool_label(true), "Enabled");
    assert_eq!(bool_label(false), "Disabled");
    assert_eq!(refresh_age_str(None), "no data");
    assert_eq!(refresh_age_str(Some(3)), "just now");
    assert_eq!(refresh_age_str(Some(42)), "42s ago");
    assert_eq!(refresh_age_str(Some(125)), "2m ago");
}

#[test]
fn platform_paths() {
    assert_eq!(ControllerPlatform::UnifiOs.legacy_prefix(), Some("/proxy/network"));
    assert_eq!(ControllerPlatform::Cloud.legacy_prefix(), None);
    assert_eq!(ControllerPlatform::ClassicController.integration_prefix(), "/integration");
    assert_eq!(ControllerPlatform::UnifiOs.login_path(), Some("/api/auth/login"));
    assert_eq!(
        ControllerPlatform::ClassicController.websocket_path(),
        Some("/wss/s/{site}/events")
    );
}

#[test]
fn screen_numbers_and_cycling() {
    assert_eq!(ScreenId::Stats.number(), 8);
    assert_eq!(ScreenId::Settings.number(), 0);
    assert_eq!(ScreenId::from_number(3), Some(ScreenId::Clients));
    assert_eq!(ScreenId::from_number(9), None);
    assert_eq!(ScreenId::Stats.next(), ScreenId::Dashboard);
    assert_eq!(ScreenId::Dashboard.prev(), ScreenId::Stats);
    assert_eq!(ScreenId::Topology.label(), "Topo");
}

#[test]
fn device_counts_and_filters() {
    let devices = vec![
        device("gw", DeviceType::Gateway, DeviceState::Online),
        device("sw", DeviceType::Switch, DeviceState::Offline),
        device("ap", DeviceType::AccessPoint, DeviceState::Updating),
    ];
    assert_eq!(device_counts(&devices), (1, 1, 1));
    assert_eq!(filter_devices(&devices, &DeviceFilter::Online).len(), 1);
    assert_eq!(filter_devices(&devices, &DeviceFilter::ByType(DeviceType::Switch)).len(), 1);
    assert!(DeviceFilter::All.matches(&devices[2]));
    assert_eq!(unifi_core::events::first_gateway(&devices), Some(0));
}

#[test]
fn devices_screen_moves_and_clamps_selection() {
    let mut s = DevicesScreenState::new();
    s.set_devices(vec![
        device("a", DeviceType::Switch, DeviceState::Online),
        device("b", DeviceType::Switch, DeviceState::Online),
    ]);
    s.handle_key(plain(KeyCode::Char('j')));
    s.handle_key(plain(KeyCode::Char('j')));
    s.handle_key(plain(KeyCode::Char('j')));
    assert_eq!(s.selected, Some(1));
    s.set_devices(vec![device("a", DeviceType::Switch, DeviceState::Online)]);
    assert_eq!(s.selected, Some(0));
}

#[test]
fn event_screen_scrolls_only_while_paused() {
    let mut s = EventsScreenState::new();
    for i in 0..5 {
        s.receive(event(&format!("e{i}")));
    }
    assert!(s.handle_key(plain(KeyCode::Char('k'))).is_none());
    assert_eq!(s.scroll_offset, 0);
    assert!(matches!(s.handle_key(plain(KeyCode::Char(' '))), Some(Action::ToggleEventPause)));
    s.handle_key(plain(KeyCode::Char('k')));
    s.handle_key(plain(KeyCode::Char('k')));
    assert_eq!(s.scroll_offset, 2);
    assert!(matches!(s.handle_key(plain(KeyCode::Char('g'))), Some(Action::ScrollToTop)));
    assert_eq!(s.scroll_offset, 4);
    s.handle_key(plain(KeyCode::Char(' ')));
    assert_eq!(s.scroll_offset, 0);
}

#[test]
fn histories_keep_only_the_newest_entries() {
    let mut v: Vec<u32> = vec![1, 2, 3];
    push_bounded(&mut v, 4, 3);
    assert_eq!(v, vec![2, 3, 4]);
    let mut h = DashboardHistory::new();
    for i in 0..70u64 {
        h.record_uplink(Some(Bandwidth { tx_bytes_per_sec: i, rx_bytes_per_sec: 2 * i }));
    }
    assert_eq!(h.bandwidth_tx.len(), 60);
    assert_eq!(h.bandwidth_tx[0], 10);
    assert_eq!(h.bandwidth_rx[59], 138);
    h.record_uplink(None);
    assert_eq!(h.bandwidth_tx.len(), 60);
    for i in 0..120 {
        h.record_event(event(&format!("e{i}")));
    }
    assert_eq!(h.events.len(), 100);
    assert_eq!(h.events[0].message, "e20");
}

#[test]
fn dashboard_records_the_gateway_uplink() {
    let mut h = DashboardHistory::new();
    let mut gw = (*device("gw", DeviceType::Gateway, DeviceState::Online)).clone();
    gw.stats.uplink_bandwidth = Some(Bandwidth { tx_bytes_per_sec: 5, rx_bytes_per_sec: 7 });
    let devices = vec![device("sw", DeviceType::Switch, DeviceState::Online), Arc::new(gw)];
    h.record_devices(&devices);
    assert_eq!(h.bandwidth_tx, vec![5]);
    assert_eq!(h.bandwidth_rx, vec![7]);
    h.record_devices(&vec![device("sw", DeviceType::Switch, DeviceState::Online)]);
    assert_eq!(h.bandwidth_tx.len(), 1);
    h.record_devices(&vec![device("gw", DeviceType::Gateway, DeviceState::Online)]);
    assert_eq!(h.bandwidth_tx.len(), 1);
}

#[test]
fn data_updates_reach_every_screen_that_shows_them() {
    let mut s = Screens::new();
    let mut gw = (*device("gw", DeviceType::Gateway, DeviceState::Online)).clone();
    gw.stats.uplink_bandwidth = Some(Bandwidth { tx_bytes_per_sec: 1, rx_bytes_per_sec: 2 });
    s.deliver(ScreenId::Dashboard, Action::DevicesUpdated(vec![Arc::new(gw)]));
    assert_eq!(s.devices.devices.len(), 1);
    assert_eq!(s.dashboard.bandwidth_tx, vec![1]);
    s.deliver(ScreenId::Dashboard, Action::EventReceived(event("boot")));
    assert_eq!(s.events.events.len(), 1);
    assert_eq!(s.dashboard.events.len(), 1);
    s.deliver(ScreenId::Events, Action::ClientsUpdated(Vec::new()));
    assert!(s.dashboard.clients.is_empty());
    s.deliver(ScreenId::Events, Action::NetworksUpdated(Vec::new()));
    assert!(s.networks.networks.is_empty());
}

#[test]
fn screen_actions_reach_only_the_active_screen() {
    let mut s = Screens::new();
    s.devices.detail_open = true;
    s.deliver(ScreenId::Networks, Action::CloseDetail);
    assert!(s.devices.detail_open);
    s.deliver(ScreenId::Devices, Action::DeviceDetailTab(DeviceDetailTab::Ports));
    assert_eq!(s.devices.detail_tab, DeviceDetailTab::Ports);
    s.deliver(ScreenId::Devices, Action::CloseDetail);
    assert!(!s.devices.detail_open);
    s.deliver(ScreenId::Devices, Action::Quit);
    assert_eq!(s.devices.detail_tab, DeviceDetailTab::Ports);
}

#[test]
fn websocket_path_is_legacy_prefix_plus_stream_with_one_site_placeholder() {
    for p in [ControllerPlatform::UnifiOs, ControllerPlatform::ClassicController] {
        let w = p.websocket_path().expect("has a stream");
        assert_eq!(w, format!("{}/wss/s/{{site}}/events", p.legacy_prefix().expect("has a prefix")));
        assert_eq!(w.matches("{site}").count(), 1);
    }
    assert!(ControllerPlatform::Cloud.websocket_path().is_none());
    assert!(ControllerPlatform::Cloud.legacy_prefix().is_none());
}
