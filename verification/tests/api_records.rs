use unifi_core::controller::{find_site_id, site_name_uuid, CoreError};
use unifi_core::convert::origin_from_metadata;
use unifi_core::entity_id::EntityId;
use unifi_core::integration::{
    uplink_bandwidth, AclRuleResponse, ClientResponse, DeviceResponse, DeviceStatisticsResponse,
    DnsPolicyResponse,
    FirewallPolicyResponse, FirewallZoneResponse, SiteResponse, TrafficMatchingListResponse,
    VoucherResponse, WifiBroadcastResponse,
};
use unifi_core::json::{Json, JsonNumber};
use unifi_core::legacy::{LegacyClientEntry, LegacyDevice};
use unifi_core::model::{
    AclAction, AclRule, AclRuleType, Client, ClientType, DataSource, Device, DeviceState, DeviceStats,
    DeviceType, DnsPolicy, DnsPolicyType, EntityOrigin, FirewallAction, FirewallPolicy,
    FrequencyBand,
    FirewallZone, IpVersion, Site, TrafficMatchingList, Voucher, WifiBroadcast,
    WifiBroadcastType, WifiSecurityMode,
};

const UUID_A: u128 = 0x550e8400_e29b_41d4_a716_446655440000;
const UUID_A_TEXT: &str = "550e8400-e29b-41d4-a716-446655440000";
const UUID_B: u128 = 0x6ba7b810_9dad_11d1_80b4_00c04fd430c8;
const UUID_B_TEXT: &str = "6ba7b810-9dad-11d1-80b4-00c04fd430c8";

fn text(s: &str) -> Json {
    Json::Str(s.to_string())
}

fn uint(n: u64) -> Json {
    Json::Number(JsonNumber { as_u64: Some(n), as_i64: i64::try_from(n).ok() })
}

fn object(entries: Vec<(&str, Json)>) -> Json {
    Json::Object(entries.into_iter().map(|(k, v)| (k.to_string(), v)).collect())
}

fn empty() -> Json {
    Json::Object(Vec::new())
}

// ── Origins ──────────────────────────────────────────────────────────

#[test]
fn origin_read_from_origin_entry() {
    let m = object(vec![("origin", text("USER_DEFINED"))]);
    assert_eq!(origin_from_metadata(&m), Some(EntityOrigin::UserDefined));
}

#[test]
fn origin_falls_back_to_management_entry() {
    let m = object(vec![("management", text("SYSTEM_DEFINED"))]);
    assert_eq!(origin_from_metadata(&m), Some(EntityOrigin::SystemDefined));
}

#[test]
fn origin_entry_that_is_not_text_hides_management() {
    let m = object(vec![("origin", uint(3)), ("management", text("ORCHESTRATED"))]);
    assert_eq!(origin_from_metadata(&m), None);
}

#[test]
fn origin_unknown_or_absent() {
    assert_eq!(origin_from_metadata(&empty()), None);
    assert_eq!(origin_from_metadata(&object(vec![("origin", text("OTHER"))])), None);
    assert_eq!(origin_from_metadata(&Json::Null), None);
}

// ── WiFi ─────────────────────────────────────────────────────────────

#[test]
fn wifi_broadcast_from_integration_record() {
    let w = WifiBroadcastResponse {
        id: UUID_A,
        name: "Home".to_string(),
        enabled: true,
        broadcast_type: "IOT_OPTIMIZED".to_string(),
        security_configuration: object(vec![("mode", text("WPA2_WPA3_PERSONAL"))]),
        network: Some(object(vec![("id", text(UUID_B_TEXT))])),
        metadata: object(vec![("origin", text("USER_DEFINED"))]),
    };
    let b = WifiBroadcast::from_integration(w);
    assert_eq!(b.id, EntityId::Uuid(UUID_A));
    assert_eq!(b.name, "Home");
    assert!(b.enabled);
    assert_eq!(b.broadcast_type, WifiBroadcastType::IotOptimized);
    assert_eq!(b.security, WifiSecurityMode::Wpa2Wpa3Personal);
    assert_eq!(b.network_id, Some(EntityId::Uuid(UUID_B)));
    assert!(!b.hidden && !b.client_isolation && !b.band_steering);
    assert!(!b.mlo_enabled && !b.fast_roaming && !b.hotspot_enabled);
    assert_eq!(b.origin, Some(EntityOrigin::UserDefined));
    assert_eq!(b.source, DataSource::IntegrationApi);
}

#[test]
fn wifi_broadcast_defaults_when_fields_missing() {
    let w = WifiBroadcastResponse {
        id: UUID_A,
        name: "Guest".to_string(),
        enabled: false,
        broadcast_type: "STANDARD".to_string(),
        security_configuration: empty(),
        network: Some(object(vec![("id", text("not-a-uuid"))])),
        metadata: empty(),
    };
    let b = WifiBroadcast::from_integration(w);
    assert_eq!(b.broadcast_type, WifiBroadcastType::Standard);
    assert_eq!(b.security, WifiSecurityMode::Open);
    assert_eq!(b.network_id, None);
    assert_eq!(b.origin, None);
}

// ── Firewall ─────────────────────────────────────────────────────────

fn policy(extra: Json, metadata: Option<Json>) -> FirewallPolicyResponse {
    FirewallPolicyResponse {
        id: UUID_A,
        name: "Block IoT".to_string(),
        description: Some("iot to lan".to_string()),
        enabled: true,
        action: object(vec![("type", text("REJECT"))]),
        logging_enabled: true,
        metadata,
        extra,
    }
}

#[test]
fn firewall_policy_reads_flat_zone_ids_and_filters() {
    let extra = object(vec![
        ("index", uint(7)),
        ("sourceFirewallZoneId", text(UUID_A_TEXT)),
        ("destinationFirewallZoneId", text(UUID_B_TEXT)),
        ("ipsecFilter", text("MATCH_ENCRYPTED")),
        (
            "connectionStateFilter",
            Json::Array(vec![text("ESTABLISHED"), uint(1), text("RELATED")]),
        ),
    ]);
    let p = FirewallPolicy::from_integration(policy(
        extra,
        Some(object(vec![("origin", text("SYSTEM_DEFINED"))])),
    ));
    assert_eq!(p.id, EntityId::Uuid(UUID_A));
    assert_eq!(p.name, "Block IoT");
    assert_eq!(p.description.as_deref(), Some("iot to lan"));
    assert_eq!(p.index, Some(7));
    assert_eq!(p.action, FirewallAction::Reject);
    assert_eq!(p.ip_version, IpVersion::Both);
    assert_eq!(p.source_zone_id, Some(EntityId::Uuid(UUID_A)));
    assert_eq!(p.destination_zone_id, Some(EntityId::Uuid(UUID_B)));
    assert_eq!(p.ipsec_mode.as_deref(), Some("MATCH_ENCRYPTED"));
    assert_eq!(p.connection_states, vec!["ESTABLISHED".to_string(), "RELATED".to_string()]);
    assert!(p.logging_enabled);
    assert!(p.source_summary.is_none() && p.schedule.is_none());
    assert_eq!(p.origin, Some(EntityOrigin::SystemDefined));
}

#[test]
fn firewall_policy_reads_nested_zone_ids() {
    let extra = object(vec![
        ("source", object(vec![("zoneId", text(UUID_B_TEXT))])),
        ("destination", object(vec![("zoneId", text(UUID_A_TEXT))])),
    ]);
    let p = FirewallPolicy::from_integration(policy(extra, None));
    assert_eq!(p.source_zone_id, Some(EntityId::Uuid(UUID_B)));
    assert_eq!(p.destination_zone_id, Some(EntityId::Uuid(UUID_A)));
    assert_eq!(p.index, None);
    assert!(p.connection_states.is_empty());
    assert_eq!(p.origin, None);
}

#[test]
fn firewall_policy_action_defaults_to_block() {
    let mut r = policy(empty(), None);
    r.action = empty();
    assert_eq!(FirewallPolicy::from_integration(r).action, FirewallAction::Block);
    let mut r = policy(empty(), None);
    r.action = object(vec![("type", text("ALLOW"))]);
    assert_eq!(FirewallPolicy::from_integration(r).action, FirewallAction::Allow);
}

#[test]
fn firewall_policy_index_is_truncated_to_32_bits() {
    let big = Json::Number(JsonNumber { as_u64: Some(4294967297), as_i64: Some(4294967297) });
    let p = FirewallPolicy::from_integration(policy(object(vec![("index", big)]), None));
    assert_eq!(p.index, Some(1));
}

#[test]
fn firewall_zone_from_integration_record() {
    let z = FirewallZone::from_integration(FirewallZoneResponse {
        id: UUID_B,
        name: "Internal".to_string(),
        network_ids: vec![UUID_A, UUID_B],
        metadata: object(vec![("management", text("ORCHESTRATED"))]),
    });
    assert_eq!(z.id, EntityId::Uuid(UUID_B));
    assert_eq!(z.name, "Internal");
    assert_eq!(z.network_ids, vec![EntityId::Uuid(UUID_A), EntityId::Uuid(UUID_B)]);
    assert_eq!(z.origin, Some(EntityOrigin::Orchestrated));
}

#[test]
fn acl_rule_from_integration_record() {
    let r = AclRule::from_integration(AclRuleResponse {
        id: UUID_A,
        name: "Allow printer".to_string(),
        enabled: true,
        rule_type: "MAC".to_string(),
        action: "ALLOW".to_string(),
        metadata: empty(),
    });
    assert_eq!(r.rule_type, AclRuleType::Mac);
    assert_eq!(r.action, AclAction::Allow);
    assert_eq!(r.origin, None);
    let r = AclRule::from_integration(AclRuleResponse {
        id: UUID_A,
        name: "Deny".to_string(),
        enabled: false,
        rule_type: "IPV4".to_string(),
        action: "BLOCK".to_string(),
        metadata: empty(),
    });
    assert_eq!(r.rule_type, AclRuleType::Ipv4);
    assert_eq!(r.action, AclAction::Block);
    assert!(r.source_summary.is_none() && r.destination_summary.is_none());
}

// ── DNS, lists, vouchers, sites ──────────────────────────────────────

#[test]
fn dns_policy_from_integration_record() {
    let d = DnsPolicy::from_integration(DnsPolicyResponse {
        id: UUID_A,
        policy_type: "CNAME".to_string(),
        domain: Some("nas.lan".to_string()),
        extra: object(vec![("value", text("storage.lan")), ("ttl", uint(300))]),
    });
    assert_eq!(d.policy_type, DnsPolicyType::CnameRecord);
    assert_eq!(d.domain, "nas.lan");
    assert_eq!(d.value, "storage.lan");
    assert_eq!(d.ttl_seconds, Some(300));
    assert_eq!(d.origin, None);
}

#[test]
fn dns_policy_defaults_when_fields_missing() {
    let d = DnsPolicy::from_integration(DnsPolicyResponse {
        id: UUID_A,
        policy_type: "SOMETHING".to_string(),
        domain: None,
        extra: empty(),
    });
    assert_eq!(d.policy_type, DnsPolicyType::ForwardDomain);
    assert_eq!(d.domain, "");
    assert_eq!(d.value, "");
    assert_eq!(d.ttl_seconds, None);
}

#[test]
fn traffic_matching_list_keeps_string_items() {
    let t = TrafficMatchingList::from_integration(TrafficMatchingListResponse {
        id: UUID_B,
        name: "Ports".to_string(),
        list_type: "PORTS".to_string(),
        extra: object(vec![(
            "items",
            Json::Array(vec![text("80"), Json::Bool(true), text("443")]),
        )]),
    });
    assert_eq!(t.id, EntityId::Uuid(UUID_B));
    assert_eq!(t.list_type, "PORTS");
    assert_eq!(t.items, vec!["80".to_string(), "443".to_string()]);
    let t = TrafficMatchingList::from_integration(TrafficMatchingListResponse {
        id: UUID_B,
        name: "Empty".to_string(),
        list_type: "IPV4_ADDRESSES".to_string(),
        extra: object(vec![("items", text("80"))]),
    });
    assert!(t.items.is_empty());
}

#[test]
fn voucher_from_integration_record() {
    let v = Voucher::from_integration(VoucherResponse {
        id: UUID_A,
        code: "12345-67890".to_string(),
        name: "Lobby".to_string(),
        expired: false,
        time_limit_minutes: 1440,
        data_usage_limit_m_bytes: Some(500),
        authorized_guest_limit: None,
        authorized_guest_count: 2,
        rx_rate_limit_kbps: Some(-1),
        tx_rate_limit_kbps: None,
    });
    assert_eq!(v.code, "12345-67890");
    assert_eq!(v.name.as_deref(), Some("Lobby"));
    assert_eq!(v.time_limit_minutes, Some(1440));
    assert_eq!(v.data_usage_limit_mb, Some(500));
    assert_eq!(v.authorized_guest_limit, None);
    assert_eq!(v.authorized_guest_count, Some(2));
    assert_eq!(v.rx_rate_limit_kbps, Some(u64::MAX));
    assert_eq!(v.tx_rate_limit_kbps, None);
}

#[test]
fn site_from_integration_record() {
    let s = Site::from_integration(SiteResponse {
        id: UUID_A,
        internal_reference: "default".to_string(),
        name: "Main Office".to_string(),
    });
    assert_eq!(s.id, EntityId::Uuid(UUID_A));
    assert_eq!(s.internal_name, "default");
    assert_eq!(s.name, "Main Office");
    assert_eq!(s.source, DataSource::IntegrationApi);
}

// ── Devices and clients ──────────────────────────────────────────────

fn legacy_device() -> LegacyDevice {
    LegacyDevice {
        id: "5f1a2b3c4d5e6f7a8b9c0d1e".to_string(),
        mac: "AA-BB-CC-DD-EE-FF".to_string(),
        ip: Some("192.168.1.2".to_string()),
        name: Some("Office Switch".to_string()),
        model: Some("US24".to_string()),
        device_type: "usw".to_string(),
        state: 1,
        version: Some("6.5.59".to_string()),
        upgradable: Some(true),
        serial: None,
        uptime: Some(3600),
        num_sta: Some(12),
    }
}

#[test]
fn legacy_device_record() {
    let d = Device::from_legacy(legacy_device());
    assert_eq!(d.id, EntityId::Legacy("5f1a2b3c4d5e6f7a8b9c0d1e".to_string()));
    assert_eq!(d.mac.as_str(), "aa:bb:cc:dd:ee:ff");
    assert_eq!(d.ip.as_deref(), Some("192.168.1.2"));
    assert_eq!(d.device_type, DeviceType::Switch);
    assert_eq!(d.state, DeviceState::Online);
    assert!(d.firmware_updatable && d.supported);
    assert!(d.has_switching && !d.has_access_point);
    assert_eq!(d.stats.uptime_secs, Some(3600));
    assert_eq!(d.client_count, Some(12));
    assert_eq!(d.source, DataSource::LegacyApi);
}

#[test]
fn legacy_device_negative_counters_are_dropped() {
    let mut r = legacy_device();
    r.uptime = Some(-5);
    r.num_sta = Some(5_000_000_000);
    r.device_type = "uap".to_string();
    r.upgradable = None;
    r.ip = Some("999.1.1.1".to_string());
    let d = Device::from_legacy(r);
    assert_eq!(d.ip, None);
    assert_eq!(d.stats.uptime_secs, None);
    assert_eq!(d.client_count, None);
    assert!(!d.firmware_updatable);
    assert!(!d.has_switching && d.has_access_point);
}

fn legacy_client(is_wired: Option<bool>, is_guest: Option<bool>) -> LegacyClientEntry {
    LegacyClientEntry {
        id: "60aa".to_string(),
        mac: "11:22:33:44:55:66".to_string(),
        ip: Some("10.0.0.5".to_string()),
        name: None,
        hostname: Some("laptop".to_string()),
        is_wired,
        essid: Some("Home".to_string()),
        bssid: Some("AA:AA:AA:AA:AA:AA".to_string()),
        channel: Some(36),
        signal: None,
        rssi: Some(-60),
        noise: Some(-95),
        satisfaction: Some(300),
        tx_rate: Some(866000),
        rx_rate: Some(-1),
        is_guest,
        authorized: Some(true),
        tx_bytes: Some(1000),
        rx_bytes: Some(2000),
        sw_mac: Some("00:00:00:00:00:01".to_string()),
        ap_mac: Some("00:00:00:00:00:02".to_string()),
        network_id: Some(UUID_B_TEXT.to_string()),
        blocked: None,
    }
}

#[test]
fn legacy_wireless_guest_client() {
    let c = Client::from_legacy(legacy_client(None, Some(true)));
    assert_eq!(c.client_type, ClientType::Wireless);
    assert_eq!(c.uplink_device_mac.as_ref().map(|m| m.as_str()), Some("00:00:00:00:00:02"));
    let w = c.wireless.expect("wireless details");
    assert_eq!(w.ssid.as_deref(), Some("Home"));
    assert_eq!(w.bssid.as_ref().map(|m| m.as_str()), Some("aa:aa:aa:aa:aa:aa"));
    assert_eq!(w.channel, Some(36));
    assert_eq!(w.frequency_band, Some(FrequencyBand::Ghz5));
    assert_eq!(w.signal_dbm, Some(-60));
    assert_eq!(w.noise_dbm, Some(-95));
    assert_eq!(w.satisfaction, None);
    assert_eq!(w.tx_rate_kbps, Some(866000));
    assert_eq!(w.rx_rate_kbps, None);
    assert!(c.is_guest);
    let g = c.guest_auth.expect("guest authorization");
    assert!(g.authorized);
    assert_eq!(g.tx_bytes, Some(1000));
    assert_eq!(c.network_id, Some(EntityId::Uuid(UUID_B)));
    assert_eq!(c.tx_bytes, Some(1000));
    assert_eq!(c.rx_bytes, Some(2000));
    assert!(!c.blocked);
}

#[test]
fn legacy_wired_client() {
    let mut r = legacy_client(Some(true), None);
    r.blocked = Some(true);
    let c = Client::from_legacy(r);
    assert_eq!(c.client_type, ClientType::Wired);
    assert!(c.wireless.is_none());
    assert!(c.guest_auth.is_none() && !c.is_guest);
    assert_eq!(c.uplink_device_mac.as_ref().map(|m| m.as_str()), Some("00:00:00:00:00:01"));
    assert!(c.blocked);
}

#[test]
fn integration_device_record() {
    let d = Device::from_integration(DeviceResponse {
        id: UUID_A,
        mac_address: "AA:BB:CC:00:11:22".to_string(),
        ip_address: None,
        name: "Lobby AP".to_string(),
        model: "U6-Pro".to_string(),
        state: "ONLINE".to_string(),
        features: vec!["accessPoint".to_string()],
        firmware_version: Some("7.0.1".to_string()),
        firmware_updatable: false,
        supported: true,
    });
    assert_eq!(d.id, EntityId::Uuid(UUID_A));
    assert_eq!(d.mac.as_str(), "aa:bb:cc:00:11:22");
    assert_eq!(d.device_type, DeviceType::AccessPoint);
    assert_eq!(d.state, DeviceState::Online);
    assert!(d.has_access_point && !d.has_switching);
    assert_eq!(d.name.as_deref(), Some("Lobby AP"));
}

#[test]
fn integration_client_without_mac_is_keyed_by_uuid() {
    let c = Client::from_integration(ClientResponse {
        id: UUID_A,
        name: "phone".to_string(),
        client_type: "WIRELESS".to_string(),
        ip_address: Some("10.0.0.9".to_string()),
        access: empty(),
    });
    assert_eq!(c.mac.as_str(), "550e8400:e29b:41d4:a716:446655440000");
    assert_eq!(c.client_type, ClientType::Wireless);
    let c = Client::from_integration(ClientResponse {
        id: UUID_A,
        name: "tv".to_string(),
        client_type: "VPN".to_string(),
        ip_address: None,
        access: object(vec![("macAddress", text("DE-AD-BE-EF-00-01"))]),
    });
    assert_eq!(c.mac.as_str(), "de:ad:be:ef:00:01");
    assert_eq!(c.client_type, ClientType::Vpn);
}

#[test]
fn uplink_bandwidth_reads_any_rate_name() {
    let u = object(vec![("txBytesPerSecond", uint(100)), ("rx_bytes-r", uint(50))]);
    let b = uplink_bandwidth(&u).expect("bandwidth");
    assert_eq!(b.tx_bytes_per_sec, 100);
    assert_eq!(b.rx_bytes_per_sec, 50);
    assert!(uplink_bandwidth(&object(vec![("txRateBps", uint(0))])).is_none());
    assert!(uplink_bandwidth(&empty()).is_none());
}

#[test]
fn device_statistics_from_integration_report() {
    let s = DeviceStats::from_integration(&DeviceStatisticsResponse {
        uptime_sec: Some(120),
        uplink: Some(object(vec![("txRateBps", uint(8)), ("rxRateBps", uint(0))])),
    });
    assert_eq!(s.uptime_secs, Some(120));
    let b = s.uplink_bandwidth.expect("uplink");
    assert_eq!((b.tx_bytes_per_sec, b.rx_bytes_per_sec), (8, 0));
    let s = DeviceStats::from_integration(&DeviceStatisticsResponse { uptime_sec: Some(-1), uplink: None });
    assert_eq!(s.uptime_secs, None);
    assert!(s.uplink_bandwidth.is_none());
}

#[test]
fn configured_site_is_resolved_by_uuid_or_reference() {
    assert_eq!(site_name_uuid(UUID_A_TEXT), Some(UUID_A));
    assert_eq!(site_name_uuid("default"), None);
    let sites = vec![
        SiteResponse { id: UUID_B, internal_reference: "branch".to_string(), name: "Branch".to_string() },
        SiteResponse { id: UUID_A, internal_reference: "default".to_string(), name: "HQ".to_string() },
    ];
    assert_eq!(find_site_id(&sites, "default").ok(), Some(UUID_A));
    match find_site_id(&sites, "lab") {
        Err(CoreError::SiteNotFound { name }) => assert_eq!(name, "lab"),
        other => panic!("unexpected {other:?}"),
    }
}
