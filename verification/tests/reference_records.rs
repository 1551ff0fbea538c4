use unifi_core::entity_id::EntityId;
use unifi_core::event_records::{LegacyAlarm, LegacyEvent, UnifiEvent};
use unifi_core::json::{Json, JsonNumber};
use unifi_core::model::{
    Admin, Alarm, Country, DataSource, DpiApplication, DpiCategory, Event, EventCategory,
    EventSeverity, HealthSummary, RadiusProfile, SysInfo, SystemInfo, VpnServer, VpnTunnel,
    WanInterface,
};

const UUID_A: u128 = 0x550e8400_e29b_41d4_a716_446655440000;
const UUID_A_TEXT: &str = "550e8400-e29b-41d4-a716-446655440000";
const NOW: i64 = 1_700_000_000_000;

fn text(s: &str) -> Json {
    Json::Str(s.to_string())
}

fn uint(n: u64) -> Json {
    Json::Number(JsonNumber { as_u64: Some(n), as_i64: i64::try_from(n).ok() })
}

fn object(entries: Vec<(&str, Json)>) -> Json {
    Json::Object(entries.into_iter().map(|(k, v)| (k.to_string(), v)).collect())
}

fn empty() -> Json {
    Json::Object(Vec::new())
}

// ── Events and alarms ────────────────────────────────────────────────

#[test]
fn legacy_event_with_readable_time() {
    let e = Event::from_legacy_at(
        LegacyEvent {
            id: "evt1".to_string(),
            datetime: Some("2024-01-15T10:30:00Z".to_string()),
            subsystem: Some("wlan".to_string()),
            key: Some("EVT_WU_Connected".to_string()),
            msg: Some("User connected".to_string()),
            site_id: Some("default".to_string()),
        },
        NOW,
    );
    assert_eq!(e.id, Some(EntityId::Legacy("evt1".to_string())));
    assert_eq!(e.timestamp_millis, 1_705_314_600_000);
    assert_eq!(e.category, EventCategory::Network);
    assert_eq!(e.severity, EventSeverity::Info);
    assert_eq!(e.event_type, "EVT_WU_Connected");
    assert_eq!(e.message, "User connected");
    assert_eq!(e.site_id, Some(EntityId::Legacy("default".to_string())));
    assert_eq!(e.raw_key.as_deref(), Some("EVT_WU_Connected"));
    assert_eq!(e.source, DataSource::LegacyApi);
}

#[test]
fn legacy_event_with_unreadable_time_is_stamped_now() {
    let e = Event::from_legacy_at(
        LegacyEvent {
            id: "evt2".to_string(),
            datetime: Some("yesterday".to_string()),
            subsystem: None,
            key: None,
            msg: None,
            site_id: None,
        },
        NOW,
    );
    assert_eq!(e.timestamp_millis, NOW);
    assert_eq!(e.category, EventCategory::Unknown);
    assert_eq!(e.event_type, "");
    assert_eq!(e.message, "");
    assert!(e.raw_key.is_none() && e.site_id.is_none());
}

#[test]
fn legacy_event_with_offset_time() {
    let e = Event::from_legacy(LegacyEvent {
        id: "evt3".to_string(),
        datetime: Some("1970-01-01T01:00:01.5+01:00".to_string()),
        subsystem: Some("vpn".to_string()),
        key: None,
        msg: None,
        site_id: None,
    });
    assert_eq!(e.timestamp_millis, 1500);
    assert_eq!(e.category, EventCategory::Vpn);
}

#[test]
fn alarm_record_as_event_and_alarm() {
    let record = || LegacyAlarm {
        id: "al1".to_string(),
        datetime: None,
        key: Some("EVT_GW_WANTransition".to_string()),
        msg: Some("WAN failover".to_string()),
        archived: Some(true),
    };
    let e = Event::from_legacy_alarm_at(record(), NOW);
    assert_eq!(e.category, EventCategory::System);
    assert_eq!(e.severity, EventSeverity::Warning);
    assert_eq!(e.timestamp_millis, NOW);
    assert_eq!(e.event_type, "EVT_GW_WANTransition");
    assert_eq!(e.message, "WAN failover");
    let a = Alarm::from_legacy_at(record(), NOW);
    assert_eq!(a.id, EntityId::Legacy("al1".to_string()));
    assert!(a.archived);
    assert_eq!(a.message, "WAN failover");
    assert_eq!(a.severity, EventSeverity::Warning);
}

#[test]
fn stream_event_names_device_client_and_site() {
    let e = Event::from_stream_at(
        UnifiEvent {
            key: "EVT_SW_Lost_Contact".to_string(),
            subsystem: "device".to_string(),
            site_id: "site1".to_string(),
            datetime: None,
            message: Some("Switch lost contact".to_string()),
            extra: object(vec![("sw", text("AA-BB-CC-DD-EE-01")), ("sta", text("11:22:33:44:55:66"))]),
        },
        NOW,
    );
    assert!(e.id.is_none());
    assert_eq!(e.category, EventCategory::Device);
    assert_eq!(e.severity, EventSeverity::Warning);
    assert_eq!(e.device_mac.as_ref().map(|m| m.as_str()), Some("aa:bb:cc:dd:ee:01"));
    assert_eq!(e.client_mac.as_ref().map(|m| m.as_str()), Some("11:22:33:44:55:66"));
    assert_eq!(e.site_id, Some(EntityId::Legacy("site1".to_string())));
    assert_eq!(e.raw_key.as_deref(), Some("EVT_SW_Lost_Contact"));
    assert_eq!(e.timestamp_millis, NOW);
}

#[test]
fn stream_event_without_site_or_macs() {
    let e = Event::from_stream_at(
        UnifiEvent {
            key: "EVT_AD_Login".to_string(),
            subsystem: "admin".to_string(),
            site_id: String::new(),
            datetime: None,
            message: None,
            extra: object(vec![("mac", uint(5)), ("ap", text("00:00:00:00:00:09"))]),
        },
        NOW,
    );
    assert_eq!(e.category, EventCategory::Admin);
    assert_eq!(e.severity, EventSeverity::Info);
    assert!(e.device_mac.is_none());
    assert!(e.client_mac.is_none() && e.site_id.is_none());
}

// ── Reference data ───────────────────────────────────────────────────

#[test]
fn vpn_records() {
    let s = VpnServer::from_fields(&object(vec![
        ("id", text(UUID_A_TEXT)),
        ("name", text("Road warriors")),
        ("serverType", text("WIREGUARD")),
        ("enabled", Json::Bool(true)),
    ]));
    assert_eq!(s.id, EntityId::Uuid(UUID_A));
    assert_eq!(s.name.as_deref(), Some("Road warriors"));
    assert_eq!(s.server_type, "WIREGUARD");
    assert_eq!(s.enabled, Some(true));
    let t = VpnTunnel::from_fields(&object(vec![("id", text("nope"))]));
    assert_eq!(t.id, EntityId::Legacy("unknown".to_string()));
    assert_eq!(t.tunnel_type, "UNKNOWN");
    assert!(t.name.is_none() && t.enabled.is_none());
}

#[test]
fn wan_record_keeps_addresses_only() {
    let w = WanInterface::from_fields(&object(vec![
        ("id", text(UUID_A_TEXT)),
        ("ipAddress", text("not-an-ip")),
        ("ip", text("203.0.113.7")),
        ("gateway", text("203.0.113.1")),
        ("dns", Json::Array(vec![text("8.8.8.8"), text("dns.example"), text("2001:4860:4860::8888")])),
    ]));
    assert_eq!(w.ip.as_deref(), Some("203.0.113.7"));
    assert_eq!(w.gateway.as_deref(), Some("203.0.113.1"));
    assert_eq!(w.dns, vec!["8.8.8.8".to_string(), "2001:4860:4860::8888".to_string()]);
    assert!(w.name.is_none());
}

#[test]
fn dpi_records() {
    let c = DpiCategory::from_fields(&object(vec![
        ("id", uint(4_294_967_300)),
        ("name", text("Streaming")),
        ("txBytes", uint(10)),
    ]));
    assert_eq!(c.id, 4);
    assert_eq!(c.name, "Streaming");
    assert_eq!(c.tx_bytes, 10);
    assert_eq!(c.rx_bytes, 0);
    assert!(c.apps.is_empty());
    let a = DpiApplication::from_fields(&object(vec![("categoryId", uint(7)), ("rxBytes", uint(99))]));
    assert_eq!(a.id, 0);
    assert_eq!(a.name, "Unknown");
    assert_eq!(a.category_id, 7);
    assert_eq!(a.rx_bytes, 99);
}

#[test]
fn radius_and_country_records() {
    let r = RadiusProfile::from_fields(&object(vec![("id", text(UUID_A_TEXT))]));
    assert_eq!(r.id, EntityId::Uuid(UUID_A));
    assert_eq!(r.name, "Unknown");
    let c = Country::from_fields(&object(vec![("code", text("DE")), ("name", text("Germany"))]));
    assert_eq!(c.code, "DE");
    assert_eq!(c.name, "Germany");
    let c = Country::from_fields(&empty());
    assert_eq!(c.code, "");
    assert_eq!(c.name, "Unknown");
}

#[test]
fn system_info_from_integration_and_legacy() {
    let i = SystemInfo::from_info(&object(vec![
        ("name", text("UDM Pro")),
        ("applicationVersion", text("9.0.114")),
        ("uptime", uint(3600)),
        ("update_available", Json::Bool(false)),
    ]));
    assert_eq!(i.controller_name.as_deref(), Some("UDM Pro"));
    assert_eq!(i.version, "9.0.114");
    assert_eq!(i.uptime_secs, Some(3600));
    assert_eq!(i.update_available, Some(false));
    assert!(i.ip.is_none() && i.build.is_none());
    let l = SystemInfo::from_sysinfo(&object(vec![
        ("controller_name", text("Office")),
        ("build", text("atag_8.0")),
        ("ip_addrs", Json::Array(vec![text("192.168.1.10"), text("10.0.0.1")])),
    ]));
    assert_eq!(l.controller_name.as_deref(), Some("Office"));
    assert_eq!(l.version, "unknown");
    assert_eq!(l.build.as_deref(), Some("atag_8.0"));
    assert_eq!(l.ip.as_deref(), Some("192.168.1.10"));
}

#[test]
fn admin_record() {
    let a = Admin::from_record(&object(vec![
        ("_id", text("65ab")),
        ("name", text("root")),
        ("role", text("admin")),
        ("is_super", Json::Bool(true)),
    ]));
    assert_eq!(a.id, EntityId::Legacy("65ab".to_string()));
    assert_eq!(a.name, "root");
    assert!(a.email.is_none());
    assert_eq!(a.role, "admin");
    assert!(a.is_super);
    let a = Admin::from_record(&empty());
    assert_eq!(a.id, EntityId::Legacy("unknown".to_string()));
    assert_eq!(a.role, "unknown");
    assert!(!a.is_super);
}

#[test]
fn health_and_sysinfo_records() {
    let h = HealthSummary::from_record(object(vec![
        ("subsystem", text("wan")),
        ("status", text("ok")),
        ("num_sta", uint(12)),
        ("tx_bytes-r", uint(1000)),
        ("wan_ip", text("198.51.100.4")),
        ("gateways", Json::Array(vec![text("gw1"), uint(2)])),
    ]));
    assert_eq!(h.subsystem, "wan");
    assert_eq!(h.status, "ok");
    assert_eq!(h.num_sta, Some(12));
    assert_eq!(h.num_adopted, None);
    assert_eq!(h.tx_bytes_r, Some(1000));
    assert_eq!(h.wan_ip.as_deref(), Some("198.51.100.4"));
    assert_eq!(h.gateways, Some(vec!["gw1".to_string()]));
    assert!(matches!(h.extra, Json::Object(ref es) if es.len() == 6));
    let s = SysInfo::from_record(object(vec![
        ("timezone", text("Europe/Berlin")),
        ("autobackup", Json::Bool(true)),
        ("ip_addrs", Json::Array(vec![text("10.0.0.2")])),
        ("data_retention_days", uint(90)),
    ]));
    assert_eq!(s.timezone.as_deref(), Some("Europe/Berlin"));
    assert_eq!(s.autobackup, Some(true));
    assert_eq!(s.ip_addrs, vec!["10.0.0.2".to_string()]);
    assert_eq!(s.data_retention_days, Some(90));
    assert!(s.live_chat.is_none());
}
