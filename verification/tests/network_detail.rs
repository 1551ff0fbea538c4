use unifi_core::entity_id::EntityId;
use unifi_core::model::{DataSource, DhcpConfig, Ipv6Mode, Network, NetworkManagement};
use unifi_core::network_detail::{join_texts, network_detail_lines, network_detail_title};

fn bare_network() -> Network {
    Network {
        id: EntityId::Uuid(3),
        name: "IoT".to_string(),
        enabled: true,
        management: None,
        purpose: None,
        is_default: false,
        vlan_id: None,
        subnet: None,
        gateway_ip: None,
        dhcp: None,
        ipv6_enabled: false,
        ipv6_mode: None,
        ipv6_prefix: None,
        dhcpv6_enabled: false,
        slaac_enabled: false,
        ntp_server: None,
        pxe_enabled: false,
        tftp_server: None,
        firewall_zone_id: None,
        isolation_enabled: false,
        internet_access_enabled: true,
        mdns_forwarding_enabled: false,
        cellular_backup_enabled: false,
        origin: None,
        source: DataSource::IntegrationApi,
    }
}

fn pairs(lines: &[(String, String)]) -> Vec<(&str, &str)> {
    lines.iter().map(|(l, v)| (l.as_str(), v.as_str())).collect()
}

#[test]
fn missing_network_settings_show_dashes() {
    let lines = network_detail_lines(&bare_network());
    assert_eq!(
        pairs(&lines),
        vec![
            ("Gateway IP", "—"),
            ("VLAN", "—"),
            ("Subnet", "—"),
            ("Management", "—"),
            ("DHCP", "—"),
            ("Internet", "Enabled"),
            ("Isolation", "Disabled"),
            ("mDNS Fwd", "Disabled"),
            ("IPv6", "Disabled"),
            ("Cellular BU", "Disabled"),
        ]
    );
}

#[test]
fn full_network_configuration_is_listed() {
    let mut n = bare_network();
    n.gateway_ip = Some("192.168.20.1".to_string());
    n.vlan_id = Some(20);
    n.subnet = Some("192.168.20.0/24".to_string());
    n.management = Some(NetworkManagement::Gateway);
    n.dhcp = Some(DhcpConfig {
        enabled: true,
        range_start: Some("192.168.20.6".to_string()),
        range_stop: None,
        lease_time_secs: Some(86400),
        dns_servers: vec!["1.1.1.1".to_string(), "8.8.8.8".to_string()],
        gateway: None,
    });
    n.ipv6_enabled = true;
    n.ipv6_mode = Some(Ipv6Mode::PrefixDelegation);
    n.cellular_backup_enabled = true;
    let lines = network_detail_lines(&n);
    assert_eq!(
        pairs(&lines),
        vec![
            ("Gateway IP", "192.168.20.1"),
            ("VLAN", "20"),
            ("Subnet", "192.168.20.0/24"),
            ("Management", "Gateway"),
            ("DHCP", "Enabled"),
            ("Lease Time", "1d"),
            ("Range", "192.168.20.6 — ?"),
            ("DNS", "1.1.1.1, 8.8.8.8"),
            ("Internet", "Enabled"),
            ("Isolation", "Disabled"),
            ("mDNS Fwd", "Disabled"),
            ("IPv6", "PrefixDelegation"),
            ("Cellular BU", "Enabled"),
        ]
    );
    assert_eq!(network_detail_title(&n), " IoT — Detail ");
}

#[test]
fn disabled_dhcp_shows_no_range() {
    let mut n = bare_network();
    n.ipv6_enabled = true;
    n.dhcp = Some(DhcpConfig {
        enabled: false,
        range_start: Some("10.0.0.2".to_string()),
        range_stop: Some("10.0.0.9".to_string()),
        lease_time_secs: None,
        dns_servers: Vec::new(),
        gateway: None,
    });
    let lines = network_detail_lines(&n);
    let p = pairs(&lines);
    assert_eq!(p[4], ("DHCP", "Disabled"));
    assert!(!p.iter().any(|(l, _)| *l == "Range" || *l == "DNS" || *l == "Lease Time"));
    assert!(p.contains(&("IPv6", "Enabled")));
}

#[test]
fn texts_are_joined_with_separator() {
    assert_eq!(join_texts(&vec![], ", "), "");
    assert_eq!(join_texts(&vec!["a".to_string()], ", "), "a");
    assert_eq!(join_texts(&vec!["a".to_string(), "b".to_string(), "c".to_string()], ", "), "a, b, c");
}
