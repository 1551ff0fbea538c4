//! Networks as the Integration API describes them. A network's settings
//! sit in the record's extra fields or, on some firmwares, in its
//! metadata, under names that differ between firmware versions; this
//! module reads them into a `Network`.

use vstd::prelude::*;

use crate::address::{is_ip, is_ip_text, is_ipv4, is_ipv4_text};
use crate::convert::{infer_network_management, map_origin, origin_spec};
use crate::entity_id::{EntityId, EntityIdView};
use crate::integration::{opt_id, opt_text, uuid_ref, uuid_ref_of};
use crate::json::{
    as_array, as_bool, as_str, as_u64, bool_of, deref_opt, get, get_field, get_in, str_of,
    u64_of, Json,
};
use crate::model::{
    text_view, DataSource, DhcpConfig, DhcpView, Ipv6Mode, Network, NetworkManagement,
};
use crate::text::{concat, decimal, owned, str_eq, u64_to_string};

verus! {

// ── Reading entries ─────────────────────────────────────────────────

/// The value of `a`, or else that of `b`.
pub open spec fn either<T>(a: Option<T>, b: Option<T>) -> Option<T> {
    match a {
        Some(x) => Some(x),
        None => b,
    }
}

/// A network setting: the extra field `key`, or else the metadata's.
pub open spec fn net_field(extra: Json, metadata: Json, key: Seq<char>) -> Option<Json> {
    either(get(extra, key), get(metadata, key))
}

/// The entry `k1` of an optional object, or else its entry `k2`.
pub open spec fn first_entry(o: Option<Json>, k1: Seq<char>, k2: Seq<char>) -> Option<Json> {
    either(get_in(o, k1), get_in(o, k2))
}

/// The value of an optional truth value, `default` when absent.
pub open spec fn bool_or(b: Option<bool>, default: bool) -> bool {
    match b {
        Some(x) => x,
        None => default,
    }
}

/// An optional text, kept when it is an IPv4 address.
pub open spec fn ipv4_of(o: Option<Seq<char>>) -> Option<Seq<char>> {
    match o {
        Some(s) => if is_ipv4(s) { Some(s) } else { None },
        None => None,
    }
}

/// An optional text, kept when it is an IP address.
pub open spec fn ip_of(o: Option<Seq<char>>) -> Option<Seq<char>> {
    match o {
        Some(s) => if is_ip(s) { Some(s) } else { None },
        None => None,
    }
}

/// The texts of the items of a list that are IP addresses, in order.
pub open spec fn ip_items(s: Seq<Json>) -> Seq<Seq<char>>
    decreases s.len(),
{
    if s.len() == 0 {
        Seq::empty()
    } else {
        let rest = ip_items(s.drop_last());
        match s.last() {
            Json::Str(t) => if is_ip(t@) { rest.push(t@) } else { rest },
            _ => rest,
        }
    }
}

/// The addresses listed in an optional array (none when it is not one).
pub open spec fn ip_list(o: Option<Json>) -> Seq<Seq<char>> {
    match as_array(o) {
        Some(a) => ip_items(a),
        None => Seq::empty(),
    }
}

/// `net_field`, computed.
fn net_field_of<'a>(extra: &'a Json, metadata: &'a Json, key: &str) -> (r: Option<&'a Json>)
    ensures
        deref_opt(r) == net_field(*extra, *metadata, key@),
{
    match get_field(extra, key) {
        Some(v) => Some(v),
        None => get_field(metadata, key),
    }
}

/// `first_entry`, computed.
fn first_entry_of<'a>(o: Option<&'a Json>, k1: &str, k2: &str) -> (r: Option<&'a Json>)
    ensures
        deref_opt(r) == first_entry(deref_opt(o), k1@, k2@),
{
    match o {
        Some(v) => match get_field(v, k1) {
            Some(x) => Some(x),
            None => get_field(v, k2),
        },
        None => None,
    }
}

/// The entry `key` of an optional object.
fn entry_in<'a>(o: Option<&'a Json>, key: &str) -> (r: Option<&'a Json>)
    ensures
        deref_opt(r) == get_in(deref_opt(o), key@),
{
    match o {
        Some(v) => get_field(v, key),
        None => None,
    }
}

/// `ipv4_of`, computed.
fn ipv4_text_of(o: Option<&str>) -> (r: Option<String>)
    ensures
        text_view(r) == ipv4_of(opt_text(o)),
{
    match o {
        Some(s) => if is_ipv4_text(s) { Some(owned(s)) } else { None },
        None => None,
    }
}

/// `ip_of`, computed.
fn ip_text_of(o: Option<&str>) -> (r: Option<String>)
    ensures
        text_view(r) == ip_of(opt_text(o)),
{
    match o {
        Some(s) => if is_ip_text(s) { Some(owned(s)) } else { None },
        None => None,
    }
}

/// An optional owned text, kept when it is an IP address.
pub fn keep_ip(o: Option<String>) -> (r: Option<String>)
    ensures
        text_view(r) == ip_of(text_view(o)),
{
    match o {
        Some(s) => if is_ip_text(s.as_str()) { Some(s) } else { None },
        None => None,
    }
}

/// `ip_list`, computed.
pub fn ip_list_of(o: Option<&Json>) -> (r: Vec<String>)
    ensures
        r@.map_values(|s: String| s@) == ip_list(deref_opt(o)),
{
    let mut out: Vec<String> = Vec::new();
    match o {
        Some(Json::Array(items)) => {
            let mut i: usize = 0;
            while i < items.len()
                invariant
                    i <= items@.len(),
                    out@.map_values(|s: String| s@) == ip_items(items@.subrange(0, i as int)),
                decreases items.len() - i,
            {
                assert(items@.subrange(0, i + 1).drop_last() =~= items@.subrange(0, i as int));
                let ghost before = out@;
                match &items[i] {
                    Json::Str(s) => {
                        if is_ip_text(s.as_str()) {
                            out.push(s.clone());
                            assert(out@.map_values(|s: String| s@) =~= before.map_values(
                                |s: String| s@,
                            ).push(s@));
                        }
                    },
                    _ => {},
                }
                i = i + 1;
            }
            assert(items@.subrange(0, items@.len() as int) =~= items@);
        },
        _ => {},
    }
    out
}

// ── IPv4 configuration and DHCP ─────────────────────────────────────

/// The host address entry of an IPv4 configuration (`hostIpAddress` in
/// the detail API, `host` on some firmwares).
pub open spec fn host_entry(ipv4: Option<Json>) -> Option<Json> {
    first_entry(ipv4, "hostIpAddress"@, "host"@)
}

/// The network's gateway: its host address, when that is an IPv4 address.
pub open spec fn gateway_of(ipv4: Option<Json>) -> Option<Seq<char>> {
    ipv4_of(as_str(host_entry(ipv4)))
}

/// The network's subnet, `host/prefix`, when the configuration has a host
/// text and an unsigned prefix length (`prefixLength`, or `prefix`).
pub open spec fn subnet_of(ipv4: Option<Json>) -> Option<Seq<char>> {
    match (as_str(host_entry(ipv4)), as_u64(first_entry(ipv4, "prefixLength"@, "prefix"@))) {
        (Some(h), Some(p)) => Some(h + "/"@ + decimal(p as nat)),
        _ => None,
    }
}

/// The DHCP server of an IPv4 configuration: from `dhcpConfiguration`
/// when there is one (enabled in `SERVER` mode), else from `dhcp.server`
/// (whose own `gateway` comes before the network's); none when neither is
/// there.
pub open spec fn dhcp_of(ipv4: Option<Json>, gateway: Option<Seq<char>>) -> Option<DhcpView> {
    match ipv4 {
        None => None,
        Some(v) => match get(v, "dhcpConfiguration"@) {
            Some(cfg) => {
                let range = get(cfg, "ipAddressRange"@);
                Some(
                    DhcpView {
                        enabled: as_str(get(cfg, "mode"@)) == Some("SERVER"@),
                        range_start: ipv4_of(as_str(first_entry(range, "start"@, "rangeStart"@))),
                        range_stop: ipv4_of(as_str(first_entry(range, "end"@, "rangeStop"@))),
                        lease_time_secs: as_u64(get(cfg, "leaseTimeSeconds"@)),
                        dns_servers: ip_list(get(cfg, "dnsServerIpAddressesOverride"@)),
                        gateway,
                    },
                )
            },
            None => match get_in(get(v, "dhcp"@), "server"@) {
                None => None,
                Some(server) => Some(
                    DhcpView {
                        enabled: bool_or(as_bool(get(server, "enabled"@)), false),
                        range_start: ipv4_of(as_str(get(server, "rangeStart"@))),
                        range_stop: ipv4_of(as_str(get(server, "rangeStop"@))),
                        lease_time_secs: as_u64(get(server, "leaseTimeSec"@)),
                        dns_servers: ip_list(get_in(get(server, "dnsOverride"@), "servers"@)),
                        gateway: either(ipv4_of(as_str(get(server, "gateway"@))), gateway),
                    },
                ),
            },
        },
    }
}

/// The view of an optional DHCP configuration.
pub open spec fn opt_dhcp(o: Option<DhcpConfig>) -> Option<DhcpView> {
    match o {
        Some(d) => Some(d@),
        None => None,
    }
}

fn clone_text(o: &Option<String>) -> (r: Option<String>)
    ensures
        text_view(r) == text_view(*o),
{
    match o {
        Some(s) => Some(s.clone()),
        None => None,
    }
}

/// The network's subnet text (see `subnet_of`).
pub fn subnet_from(ipv4: Option<&Json>) -> (r: Option<String>)
    ensures
        text_view(r) == subnet_of(deref_opt(ipv4)),
{
    let host = str_of(first_entry_of(ipv4, "hostIpAddress", "host"));
    let prefix = u64_of(first_entry_of(ipv4, "prefixLength", "prefix"));
    match (host, prefix) {
        (Some(h), Some(p)) => {
            let with_slash = concat(h, "/");
            let digits = u64_to_string(p);
            Some(concat(with_slash.as_str(), digits.as_str()))
        },
        _ => None,
    }
}

/// The DHCP server of an IPv4 configuration (see `dhcp_of`).
pub fn dhcp_from(ipv4: Option<&Json>, gateway: &Option<String>) -> (r: Option<DhcpConfig>)
    ensures
        opt_dhcp(r) == dhcp_of(deref_opt(ipv4), text_view(*gateway)),
{
    match ipv4 {
        None => None,
        Some(v) => match get_field(v, "dhcpConfiguration") {
            Some(cfg) => {
                let enabled = match str_of(get_field(cfg, "mode")) {
                    Some(m) => str_eq(m, "SERVER"),
                    None => false,
                };
                proof {
                    reveal_strlit("SERVER");
                }
                let range = get_field(cfg, "ipAddressRange");
                let range_start = ipv4_text_of(str_of(first_entry_of(range, "start", "rangeStart")));
                let range_stop = ipv4_text_of(str_of(first_entry_of(range, "end", "rangeStop")));
                let lease_time_secs = u64_of(get_field(cfg, "leaseTimeSeconds"));
                let dns_servers = ip_list_of(get_field(cfg, "dnsServerIpAddressesOverride"));
                Some(
                    DhcpConfig {
                        enabled,
                        range_start,
                        range_stop,
                        lease_time_secs,
                        dns_servers,
                        gateway: clone_text(gateway),
                    },
                )
            },
            None => match entry_in(get_field(v, "dhcp"), "server") {
                None => None,
                Some(server) => {
                    let enabled = match bool_of(get_field(server, "enabled")) {
                        Some(b) => b,
                        None => false,
                    };
                    let range_start = ipv4_text_of(str_of(get_field(server, "rangeStart")));
                    let range_stop = ipv4_text_of(str_of(get_field(server, "rangeStop")));
                    let lease_time_secs = u64_of(get_field(server, "leaseTimeSec"));
                    let dns_servers = ip_list_of(entry_in(get_field(server, "dnsOverride"), "servers"));
                    let own = ipv4_text_of(str_of(get_field(server, "gateway")));
                    let gw = match own {
                        Some(g) => Some(g),
                        None => clone_text(gateway),
                    };
                    Some(
                        DhcpConfig {
                            enabled,
                            range_start,
                            range_stop,
                            lease_time_secs,
                            dns_servers,
                            gateway: gw,
                        },
                    )
                },
            },
        },
    }
}

// ── IPv6 configuration ──────────────────────────────────────────────

/// The IPv6 mode (`interfaceType` in the detail API, `type` elsewhere).
pub open spec fn ipv6_mode_of(ipv6: Option<Json>) -> Option<Ipv6Mode> {
    match as_str(first_entry(ipv6, "interfaceType"@, "type"@)) {
        Some(s) => if s == "PREFIX_DELEGATION"@ {
            Some(Ipv6Mode::PrefixDelegation)
        } else if s == "STATIC"@ {
            Some(Ipv6Mode::Static)
        } else {
            None
        },
        None => None,
    }
}

/// An address-assignment switch of an IPv6 configuration:
/// `clientAddressAssignment.<key>` in the detail API, else
/// `<fallback>.enabled`; off when neither is a truth value.
pub open spec fn assignment_flag(ipv6: Option<Json>, key: Seq<char>, fallback: Seq<char>) -> bool {
    bool_or(
        either(
            as_bool(get_in(get_in(ipv6, "clientAddressAssignment"@), key)),
            as_bool(get_in(get_in(ipv6, fallback), "enabled"@)),
        ),
        false,
    )
}

/// The first item of an optional array.
pub open spec fn first_item(o: Option<Json>) -> Option<Json> {
    match as_array(o) {
        Some(a) => if a.len() > 0 { Some(a[0]) } else { None },
        None => None,
    }
}

/// The IPv6 prefix: the first of `additionalHostIpSubnets` when it is a
/// text, else `prefix`.
pub open spec fn ipv6_prefix_of(ipv6: Option<Json>) -> Option<Seq<char>> {
    either(
        as_str(first_item(get_in(ipv6, "additionalHostIpSubnets"@))),
        as_str(get_in(ipv6, "prefix"@)),
    )
}

fn ipv6_mode_from(ipv6: Option<&Json>) -> (r: Option<Ipv6Mode>)
    ensures
        r == ipv6_mode_of(deref_opt(ipv6)),
{
    match str_of(first_entry_of(ipv6, "interfaceType", "type")) {
        Some(s) => if str_eq(s, "PREFIX_DELEGATION") {
            Some(Ipv6Mode::PrefixDelegation)
        } else if str_eq(s, "STATIC") {
            Some(Ipv6Mode::Static)
        } else {
            None
        },
        None => None,
    }
}

fn assignment_flag_from(ipv6: Option<&Json>, key: &str, fallback: &str) -> (r: bool)
    ensures
        r == assignment_flag(deref_opt(ipv6), key@, fallback@),
{
    let current = bool_of(entry_in(entry_in(ipv6, "clientAddressAssignment"), key));
    let chosen = match current {
        Some(b) => Some(b),
        None => bool_of(entry_in(entry_in(ipv6, fallback), "enabled")),
    };
    match chosen {
        Some(b) => b,
        None => false,
    }
}

fn first_item_of(o: Option<&Json>) -> (r: Option<&Json>)
    ensures
        deref_opt(r) == first_item(deref_opt(o)),
{
    match o {
        Some(Json::Array(items)) => if items.len() > 0 { Some(&items[0]) } else { None },
        _ => None,
    }
}

fn ipv6_prefix_from(ipv6: Option<&Json>) -> (r: Option<String>)
    ensures
        text_view(r) == ipv6_prefix_of(deref_opt(ipv6)),
{
    match str_of(first_item_of(entry_in(ipv6, "additionalHostIpSubnets"))) {
        Some(s) => Some(owned(s)),
        None => match str_of(entry_in(ipv6, "prefix")) {
            Some(s) => Some(owned(s)),
            None => None,
        },
    }
}

// ── The network ─────────────────────────────────────────────────────

/// A network as the Integration API lists or details it.
pub struct NetworkResponse {
    pub id: u128,
    pub name: String,
    pub enabled: bool,
    pub management: String,
    pub vlan_id: i32,
    pub default: bool,
    pub metadata: Json,
    /// The fields that the record has beyond the ones above.
    pub extra: Json,
}

/// What a network read from a record holds: switches, feature flags and
/// the firewall zone are looked up in the extra fields first, then in the
/// metadata; addresses are kept only when they read as addresses; the
/// management type is inferred from the presence of an IPv4 configuration
/// and of a `deviceId`.
pub open spec fn reads_network(
    r: Network,
    id: u128,
    name: Seq<char>,
    enabled: bool,
    management: Seq<char>,
    vlan_id: i32,
    is_default: bool,
    metadata: Json,
    extra: Json,
) -> bool {
    let ipv4 = net_field(extra, metadata, "ipv4Configuration"@);
    let ipv6 = net_field(extra, metadata, "ipv6Configuration"@);
    let has_device_id = get(extra, "deviceId"@) is Some;
    &&& r.id@ == EntityIdView::Uuid(id)
    &&& r.name@ == name
    &&& r.enabled == enabled
    &&& r.management == (if ipv4 is Some && !has_device_id {
        Some(NetworkManagement::Gateway)
    } else if has_device_id {
        Some(NetworkManagement::Switch)
    } else {
        None::<NetworkManagement>
    })
    &&& r.purpose is None
    &&& r.is_default == is_default
    &&& r.vlan_id == Some(vlan_id as u16)
    &&& text_view(r.subnet) == subnet_of(ipv4)
    &&& text_view(r.gateway_ip) == gateway_of(ipv4)
    &&& opt_dhcp(r.dhcp) == dhcp_of(ipv4, gateway_of(ipv4))
    &&& r.ipv6_enabled == ipv6 is Some
    &&& r.ipv6_mode == ipv6_mode_of(ipv6)
    &&& text_view(r.ipv6_prefix) == ipv6_prefix_of(ipv6)
    &&& r.dhcpv6_enabled == assignment_flag(ipv6, "dhcpv6Enabled"@, "dhcpv6"@)
    &&& r.slaac_enabled == assignment_flag(ipv6, "slaacEnabled"@, "slaac"@)
    &&& text_view(r.ntp_server) == ip_of(as_str(get_in(get_in(ipv4, "ntp"@), "server"@)))
    &&& r.pxe_enabled == bool_or(as_bool(get_in(get_in(ipv4, "pxe"@), "enabled"@)), false)
    &&& text_view(r.tftp_server) == as_str(get_in(get_in(ipv4, "tftp"@), "server"@))
    &&& opt_id(r.firewall_zone_id) == uuid_ref(as_str(net_field(extra, metadata, "zoneId"@)))
    &&& r.isolation_enabled == bool_or(as_bool(net_field(extra, metadata, "isolationEnabled"@)), false)
    &&& r.internet_access_enabled == bool_or(
        as_bool(net_field(extra, metadata, "internetAccessEnabled"@)),
        true,
    )
    &&& r.mdns_forwarding_enabled == bool_or(
        as_bool(net_field(extra, metadata, "mdnsForwardingEnabled"@)),
        false,
    )
    &&& r.cellular_backup_enabled == bool_or(
        as_bool(net_field(extra, metadata, "cellularBackupEnabled"@)),
        false,
    )
    &&& r.origin == origin_spec(management)
    &&& r.source == DataSource::IntegrationApi
}

/// Reads a network's configuration from its record's extra fields and
/// metadata (see `reads_network`).
pub fn parse_network_fields(
    id: u128,
    name: String,
    enabled: bool,
    management_str: &str,
    vlan_id: i32,
    is_default: bool,
    metadata: &Json,
    extra: &Json,
) -> (r: Network)
    ensures
        reads_network(r, id, name@, enabled, management_str@, vlan_id, is_default, *metadata, *extra),
{
    let isolation_enabled = match bool_of(net_field_of(extra, metadata, "isolationEnabled")) {
        Some(b) => b,
        None => false,
    };
    let internet_access_enabled = match bool_of(
        net_field_of(extra, metadata, "internetAccessEnabled"),
    ) {
        Some(b) => b,
        None => true,
    };
    let mdns_forwarding_enabled = match bool_of(
        net_field_of(extra, metadata, "mdnsForwardingEnabled"),
    ) {
        Some(b) => b,
        None => false,
    };
    let cellular_backup_enabled = match bool_of(
        net_field_of(extra, metadata, "cellularBackupEnabled"),
    ) {
        Some(b) => b,
        None => false,
    };
    let firewall_zone_id = uuid_ref_of(str_of(net_field_of(extra, metadata, "zoneId")));

    let ipv4 = net_field_of(extra, metadata, "ipv4Configuration");
    let gateway_ip = ipv4_text_of(str_of(first_entry_of(ipv4, "hostIpAddress", "host")));
    let subnet = subnet_from(ipv4);
    let dhcp = dhcp_from(ipv4, &gateway_ip);
    let pxe_enabled = match bool_of(entry_in(entry_in(ipv4, "pxe"), "enabled")) {
        Some(b) => b,
        None => false,
    };
    let ntp_server = ip_text_of(str_of(entry_in(entry_in(ipv4, "ntp"), "server")));
    let tftp_server = match str_of(entry_in(entry_in(ipv4, "tftp"), "server")) {
        Some(s) => Some(owned(s)),
        None => None,
    };

    let ipv6 = net_field_of(extra, metadata, "ipv6Configuration");
    let ipv6_enabled = ipv6.is_some();
    let ipv6_mode = ipv6_mode_from(ipv6);
    let slaac_enabled = assignment_flag_from(ipv6, "slaacEnabled", "slaac");
    let dhcpv6_enabled = assignment_flag_from(ipv6, "dhcpv6Enabled", "dhcpv6");
    let ipv6_prefix = ipv6_prefix_from(ipv6);

    let has_ipv4_config = ipv4.is_some();
    let has_device_id = get_field(extra, "deviceId").is_some();
    let management = infer_network_management(has_ipv4_config, has_device_id);

    Network {
        id: EntityId::Uuid(id),
        name,
        enabled,
        management,
        purpose: None,
        is_default,
        vlan_id: Some(vlan_id as u16),
        subnet,
        gateway_ip,
        dhcp,
        ipv6_enabled,
        ipv6_mode,
        ipv6_prefix,
        dhcpv6_enabled,
        slaac_enabled,
        ntp_server,
        pxe_enabled,
        tftp_server,
        firewall_zone_id,
        isolation_enabled,
        internet_access_enabled,
        mdns_forwarding_enabled,
        cellular_backup_enabled,
        origin: map_origin(management_str),
        source: DataSource::IntegrationApi,
    }
}

impl Network {
    /// The domain network for an Integration API record (list or detail).
    pub fn from_integration(n: NetworkResponse) -> (r: Network)
        ensures
            reads_network(r, n.id, n.name@, n.enabled, n.management@, n.vlan_id, n.default, n.metadata, n.extra),
    {
        parse_network_fields(
            n.id,
            n.name,
            n.enabled,
            n.management.as_str(),
            n.vlan_id,
            n.default,
            &n.metadata,
            &n.extra,
        )
    }
}

} // verus!
