use unifi_core::entity_id::EntityId;
use unifi_core::json::{Json, JsonNumber};
use unifi_core::model::{EntityOrigin, Ipv6Mode, Network, NetworkManagement};
use unifi_core::network_record::{parse_network_fields, NetworkResponse};

const NET: u128 = 0x11111111_2222_3333_4444_555555555555;
const ZONE: u128 = 0x6ba7b810_9dad_11d1_80b4_00c04fd430c8;
const ZONE_TEXT: &str = "6ba7b810-9dad-11d1-80b4-00c04fd430c8";

fn text(s: &str) -> Json {
    Json::Str(s.to_string())
}

fn uint(n: u64) -> Json {
    Json::Number(JsonNumber { as_u64: Some(n), as_i64: i64::try_from(n).ok() })
}

fn object(entries: Vec<(&str, Json)>) -> Json {
    Json::Object(entries.into_iter().map(|(k, v)| (k.to_string(), v)).collect())
}

fn texts(items: &[&str]) -> Json {
    Json::Array(items.iter().map(|s| text(s)).collect())
}

fn record(extra: Json, metadata: Json) -> NetworkResponse {
    NetworkResponse {
        id: NET,
        name: "LAN".to_string(),
        enabled: true,
        management: "USER_DEFINED".to_string(),
        vlan_id: 10,
        default: false,
        metadata,
        extra,
    }
}

#[test]
fn detail_api_network_with_dhcp_configuration() {
    let ipv4 = object(vec![
        ("hostIpAddress", text("192.168.10.1")),
        ("prefixLength", uint(24)),
        (
            "dhcpConfiguration",
            object(vec![
                ("mode", text("SERVER")),
                (
                    "ipAddressRange",
                    object(vec![("start", text("192.168.10.100")), ("end", text("192.168.10.200"))]),
                ),
                ("leaseTimeSeconds", uint(86400)),
                ("dnsServerIpAddressesOverride", texts(&["1.1.1.1", "bogus", "2606:4700::1111"])),
            ]),
        ),
        ("ntp", object(vec![("server", text("fd00::123"))])),
        ("pxe", object(vec![("enabled", Json::Bool(true))])),
        ("tftp", object(vec![("server", text("boot.lan"))])),
    ]);
    let ipv6 = object(vec![
        ("interfaceType", text("PREFIX_DELEGATION")),
        (
            "clientAddressAssignment",
            object(vec![("slaacEnabled", Json::Bool(true)), ("dhcpv6Enabled", Json::Bool(false))]),
        ),
        ("additionalHostIpSubnets", texts(&["2001:db8:10::/64"])),
    ]);
    let extra = object(vec![
        ("ipv4Configuration", ipv4),
        ("ipv6Configuration", ipv6),
        ("zoneId", text(ZONE_TEXT)),
        ("isolationEnabled", Json::Bool(true)),
    ]);
    let n = Network::from_integration(record(extra, Json::Null));
    assert_eq!(n.id, EntityId::Uuid(NET));
    assert_eq!(n.name, "LAN");
    assert_eq!(n.management, Some(NetworkManagement::Gateway));
    assert_eq!(n.vlan_id, Some(10));
    assert_eq!(n.subnet.as_deref(), Some("192.168.10.1/24"));
    assert_eq!(n.gateway_ip.as_deref(), Some("192.168.10.1"));
    let d = n.dhcp.expect("dhcp");
    assert!(d.enabled);
    assert_eq!(d.range_start.as_deref(), Some("192.168.10.100"));
    assert_eq!(d.range_stop.as_deref(), Some("192.168.10.200"));
    assert_eq!(d.lease_time_secs, Some(86400));
    assert_eq!(d.dns_servers, vec!["1.1.1.1".to_string(), "2606:4700::1111".to_string()]);
    assert_eq!(d.gateway.as_deref(), Some("192.168.10.1"));
    assert_eq!(n.ntp_server.as_deref(), Some("fd00::123"));
    assert!(n.pxe_enabled);
    assert_eq!(n.tftp_server.as_deref(), Some("boot.lan"));
    assert!(n.ipv6_enabled);
    assert_eq!(n.ipv6_mode, Some(Ipv6Mode::PrefixDelegation));
    assert!(n.slaac_enabled && !n.dhcpv6_enabled);
    assert_eq!(n.ipv6_prefix.as_deref(), Some("2001:db8:10::/64"));
    assert_eq!(n.firewall_zone_id, Some(EntityId::Uuid(ZONE)));
    assert!(n.isolation_enabled);
    assert!(n.internet_access_enabled);
    assert!(!n.mdns_forwarding_enabled && !n.cellular_backup_enabled);
    assert_eq!(n.origin, Some(EntityOrigin::UserDefined));
}

#[test]
fn firmware_network_with_legacy_dhcp_server_in_metadata() {
    let ipv4 = object(vec![
        ("host", text("10.0.0.1")),
        ("prefix", uint(16)),
        (
            "dhcp",
            object(vec![(
                "server",
                object(vec![
                    ("enabled", Json::Bool(true)),
                    ("rangeStart", text("10.0.0.10")),
                    ("rangeStop", text("10.0.0.300")),
                    ("leaseTimeSec", uint(600)),
                    ("dnsOverride", object(vec![("servers", texts(&["9.9.9.9"]))])),
                    ("gateway", text("10.0.0.254")),
                ]),
            )]),
        ),
    ]);
    let ipv6 = object(vec![
        ("type", text("STATIC")),
        ("slaac", object(vec![("enabled", Json::Bool(true))])),
        ("dhcpv6", object(vec![("enabled", Json::Bool(true))])),
        ("prefix", text("fd00:1::/64")),
    ]);
    let metadata = object(vec![
        ("ipv4Configuration", ipv4),
        ("ipv6Configuration", ipv6),
        ("internetAccessEnabled", Json::Bool(false)),
    ]);
    let extra = object(vec![("deviceId", text("abc"))]);
    let n = Network::from_integration(record(extra, metadata));
    assert_eq!(n.management, Some(NetworkManagement::Switch));
    assert_eq!(n.subnet.as_deref(), Some("10.0.0.1/16"));
    let d = n.dhcp.expect("dhcp");
    assert!(d.enabled);
    assert_eq!(d.range_start.as_deref(), Some("10.0.0.10"));
    assert_eq!(d.range_stop, None);
    assert_eq!(d.lease_time_secs, Some(600));
    assert_eq!(d.dns_servers, vec!["9.9.9.9".to_string()]);
    assert_eq!(d.gateway.as_deref(), Some("10.0.0.254"));
    assert_eq!(n.ipv6_mode, Some(Ipv6Mode::Static));
    assert!(n.slaac_enabled && n.dhcpv6_enabled);
    assert_eq!(n.ipv6_prefix.as_deref(), Some("fd00:1::/64"));
    assert!(!n.internet_access_enabled);
}

#[test]
fn bare_network_has_defaults() {
    let n = parse_network_fields(
        NET,
        "Guest".to_string(),
        false,
        "SOMETHING",
        -1,
        true,
        &Json::Null,
        &object(Vec::new()),
    );
    assert_eq!(n.management, None);
    assert_eq!(n.vlan_id, Some(65535));
    assert!(n.is_default && !n.enabled);
    assert!(n.subnet.is_none() && n.gateway_ip.is_none() && n.dhcp.is_none());
    assert!(!n.ipv6_enabled && n.ipv6_mode.is_none() && n.ipv6_prefix.is_none());
    assert!(!n.slaac_enabled && !n.dhcpv6_enabled && !n.pxe_enabled);
    assert!(n.ntp_server.is_none() && n.tftp_server.is_none() && n.firewall_zone_id.is_none());
    assert!(n.internet_access_enabled && !n.isolation_enabled);
    assert_eq!(n.origin, None);
}

#[test]
fn host_that_is_not_an_address_gives_subnet_but_no_gateway() {
    let ipv4 = object(vec![
        ("hostIpAddress", text("router")),
        ("prefixLength", uint(24)),
        ("dhcpConfiguration", object(vec![("mode", text("RELAY"))])),
    ]);
    let n = Network::from_integration(record(object(vec![("ipv4Configuration", ipv4)]), Json::Null));
    assert_eq!(n.subnet.as_deref(), Some("router/24"));
    assert_eq!(n.gateway_ip, None);
    let d = n.dhcp.expect("dhcp");
    assert!(!d.enabled);
    assert!(d.gateway.is_none() && d.dns_servers.is_empty());
    assert_eq!(n.management, Some(NetworkManagement::Gateway));
}
