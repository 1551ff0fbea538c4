//! Records of the Integration API and their mapping to the domain model.
//! Free-form parts of a reply (metadata, extra fields, nested objects) are
//! held as `Json`; identifiers as the 128 bits of their UUID.

use vstd::prelude::*;

use crate::convert::{
    client_type_spec, feature_listed, has_feature, infer_device_type_integration,
    integration_device_state_spec, integration_device_type_spec, map_client_type,
    map_integration_device_state, dns_policy_type_spec, map_acl_rule, map_dns_policy_type, map_firewall_action,
    map_security_mode, map_wifi_broadcast_type, metadata_origin, origin_from_metadata,
    security_mode_spec,
};
use crate::entity_id::{
    normalized_mac, parse_uuid, uuid_parse, uuid_text, EntityId, EntityIdView, MacAddress,
};
use crate::json::{
    as_array, as_i64, as_str, as_u64, get, get_field, get_in, i64_of, str_of,
    string_items, string_items_of, u64_of, Json,
};
use crate::model::{
    Bandwidth, Client, Device, DeviceStats, AclAction, AclRule, AclRuleType, DataSource, DnsPolicy, EntityOrigin, FirewallAction,
    FirewallPolicy, FirewallZone, IpVersion, Site, TrafficMatchingList, Voucher, WifiBroadcast,
    WifiBroadcastType, };
use crate::text::owned;
use vstd::string::StrSliceExecFns;

verus! {

// ── Helpers ─────────────────────────────────────────────────────────

/// The view of an optional id.
pub open spec fn opt_id(o: Option<EntityId>) -> Option<EntityIdView> {
    match o {
        Some(i) => Some(i@),
        None => None,
    }
}

/// The view of an optional text.
pub open spec fn opt_text(o: Option<&str>) -> Option<Seq<char>> {
    match o {
        Some(s) => Some(s@),
        None => None,
    }
}

/// The view of an optional owned text.
pub open spec fn opt_string(o: Option<String>) -> Option<Seq<char>> {
    match o {
        Some(s) => Some(s@),
        None => None,
    }
}

/// The UUID id that an optional text names, when it parses as a UUID.
pub open spec fn uuid_ref(text: Option<Seq<char>>) -> Option<EntityIdView> {
    match text {
        Some(s) => match uuid_parse(s) {
            Some(u) => Some(EntityIdView::Uuid(u)),
            None => None,
        },
        None => None,
    }
}

/// The UUID id that an optional text names (none when absent or not a
/// UUID).
pub fn uuid_ref_of(text: Option<&str>) -> (r: Option<EntityId>)
    ensures
        opt_id(r) == uuid_ref(opt_text(text)),
{
    match text {
        Some(s) => match parse_uuid(s) {
            Some(u) => Some(EntityId::Uuid(u)),
            None => None,
        },
        None => None,
    }
}

/// An optional text as an owned string.
fn owned_opt(o: Option<&str>) -> (r: Option<String>)
    ensures
        opt_string(r) == opt_text(o),
{
    match o {
        Some(s) => Some(owned(s)),
        None => None,
    }
}

// ── WiFi broadcast ──────────────────────────────────────────────────

/// A WiFi broadcast as the Integration API lists it.
pub struct WifiBroadcastResponse {
    pub id: u128,
    pub name: String,
    pub enabled: bool,
    pub broadcast_type: String,
    pub security_configuration: Json,
    pub network: Option<Json>,
    pub metadata: Json,
}

impl WifiBroadcast {
    /// The domain broadcast for an Integration API record: the type and the
    /// security mode mapped from their strings, the network from the UUID
    /// under `network.id`, the origin from the metadata, and the settings
    /// that the listing does not carry off.
    pub fn from_integration(w: WifiBroadcastResponse) -> (b: WifiBroadcast)
        ensures
            b.id@ == EntityIdView::Uuid(w.id),
            b.name@ == w.name@,
            b.enabled == w.enabled,
            b.broadcast_type == (if w.broadcast_type@ == "IOT_OPTIMIZED"@ {
                WifiBroadcastType::IotOptimized
            } else {
                WifiBroadcastType::Standard
            }),
            b.security == security_mode_spec(as_str(get(w.security_configuration, "mode"@))),
            opt_id(b.network_id) == uuid_ref(as_str(get_in(w.network, "id"@))),
            !b.hidden,
            !b.client_isolation,
            !b.band_steering,
            !b.mlo_enabled,
            !b.fast_roaming,
            !b.hotspot_enabled,
            b.origin == metadata_origin(w.metadata),
            b.source == DataSource::IntegrationApi,
    {
        let broadcast_type = map_wifi_broadcast_type(w.broadcast_type.as_str());
        let security = map_security_mode(str_of(get_field(&w.security_configuration, "mode")));
        let network_entry = match &w.network {
            Some(n) => get_field(n, "id"),
            None => None,
        };
        let network_id = uuid_ref_of(str_of(network_entry));
        let origin = origin_from_metadata(&w.metadata);
        WifiBroadcast {
            id: EntityId::Uuid(w.id),
            name: w.name,
            enabled: w.enabled,
            broadcast_type,
            security,
            network_id,
            hidden: false,
            client_isolation: false,
            band_steering: false,
            mlo_enabled: false,
            fast_roaming: false,
            hotspot_enabled: false,
            origin,
            source: DataSource::IntegrationApi,
        }
    }
}

// ── Firewall ────────────────────────────────────────────────────────

/// Firewall action from the policy's `action.type` (absent: block).
pub open spec fn firewall_action_of(t: Option<Seq<char>>) -> FirewallAction {
    match t {
        Some(s) => if s == "ALLOW"@ {
            FirewallAction::Allow
        } else if s == "REJECT"@ {
            FirewallAction::Reject
        } else {
            FirewallAction::Block
        },
        None => FirewallAction::Block,
    }
}

/// The zone a policy names on one side: the flat `flat` entry of its extra
/// fields when it is a string (as controllers send it), else the `zoneId`
/// inside the `nested` object (as the published schema has it).
pub open spec fn zone_text(extra: Json, flat: Seq<char>, nested: Seq<char>) -> Option<Seq<char>> {
    match as_str(get(extra, flat)) {
        Some(s) => Some(s),
        None => as_str(get_in(get(extra, nested), "zoneId"@)),
    }
}

/// The policy index, truncated to 32 bits, when the extra fields carry an
/// integer `index`.
pub open spec fn index_of(extra: Json) -> Option<i32> {
    match as_i64(get(extra, "index"@)) {
        Some(i) => Some(i as i32),
        None => None,
    }
}

/// The texts of the string items of the array under `key`, in order
/// (empty when there is no such array).
pub open spec fn string_list(extra: Json, key: Seq<char>) -> Seq<Seq<char>> {
    match as_array(get(extra, key)) {
        Some(a) => string_items(a),
        None => Seq::empty(),
    }
}

/// A firewall policy as the Integration API lists it.
pub struct FirewallPolicyResponse {
    pub id: u128,
    pub name: String,
    pub description: Option<String>,
    pub enabled: bool,
    pub action: Json,
    pub logging_enabled: bool,
    pub metadata: Option<Json>,
    /// The fields that the record has beyond the ones above.
    pub extra: Json,
}

/// The zone a policy names on one side (see `zone_text`).
fn zone_ref<'a>(extra: &'a Json, flat: &str, nested: &str) -> (r: Option<&'a str>)
    ensures
        opt_text(r) == zone_text(*extra, flat@, nested@),
{
    match str_of(get_field(extra, flat)) {
        Some(s) => Some(s),
        None => {
            let inner = match get_field(extra, nested) {
                Some(n) => get_field(n, "zoneId"),
                None => None,
            };
            str_of(inner)
        },
    }
}

impl FirewallPolicy {
    /// The domain policy for an Integration API record: the action from
    /// `action.type`, the index, zones, IPsec mode and connection states
    /// from the extra fields, the origin from the metadata when there is
    /// any; both IP versions, and no summaries or schedule.
    pub fn from_integration(p: FirewallPolicyResponse) -> (f: FirewallPolicy)
        ensures
            f.id@ == EntityIdView::Uuid(p.id),
            f.name@ == p.name@,
            opt_string(f.description) == opt_string(p.description),
            f.enabled == p.enabled,
            f.index == index_of(p.extra),
            f.action == firewall_action_of(as_str(get(p.action, "type"@))),
            f.ip_version == IpVersion::Both,
            opt_id(f.source_zone_id) == uuid_ref(zone_text(p.extra, "sourceFirewallZoneId"@, "source"@)),
            opt_id(f.destination_zone_id) == uuid_ref(
                zone_text(p.extra, "destinationFirewallZoneId"@, "destination"@),
            ),
            f.source_summary is None,
            f.destination_summary is None,
            f.protocol_summary is None,
            f.schedule is None,
            opt_string(f.ipsec_mode) == as_str(get(p.extra, "ipsecFilter"@)),
            f.connection_states@.map_values(|s: String| s@) == string_list(p.extra, "connectionStateFilter"@),
            f.logging_enabled == p.logging_enabled,
            f.origin == match p.metadata {
                Some(m) => metadata_origin(m),
                None => None::<EntityOrigin>,
            },
            f.source == DataSource::IntegrationApi,
    {
        let action = map_firewall_action(str_of(get_field(&p.action, "type")));
        let index = match i64_of(get_field(&p.extra, "index")) {
            Some(i) => Some(i as i32),
            None => None,
        };
        let source_zone_id = uuid_ref_of(zone_ref(&p.extra, "sourceFirewallZoneId", "source"));
        let destination_zone_id = uuid_ref_of(
            zone_ref(&p.extra, "destinationFirewallZoneId", "destination"),
        );
        let ipsec_mode = owned_opt(str_of(get_field(&p.extra, "ipsecFilter")));
        let connection_states = string_items_of(get_field(&p.extra, "connectionStateFilter"));
        let origin = match &p.metadata {
            Some(m) => origin_from_metadata(m),
            None => None,
        };
        FirewallPolicy {
            id: EntityId::Uuid(p.id),
            name: p.name,
            description: p.description,
            enabled: p.enabled,
            index,
            action,
            ip_version: IpVersion::Both,
            source_zone_id,
            destination_zone_id,
            source_summary: None,
            destination_summary: None,
            protocol_summary: None,
            schedule: None,
            ipsec_mode,
            connection_states,
            logging_enabled: p.logging_enabled,
            origin,
            source: DataSource::IntegrationApi,
        }
    }
}

/// A firewall zone as the Integration API lists it.
pub struct FirewallZoneResponse {
    pub id: u128,
    pub name: String,
    pub network_ids: Vec<u128>,
    pub metadata: Json,
}

/// UUID ids for a list of UUIDs, in order.
pub fn uuid_ids(us: &Vec<u128>) -> (r: Vec<EntityId>)
    ensures
        r@.map_values(|i: EntityId| i@) == us@.map_values(|u: u128| EntityIdView::Uuid(u)),
{
    let mut r: Vec<EntityId> = Vec::new();
    let mut i: usize = 0;
    while i < us.len()
        invariant
            i <= us@.len(),
            r@.map_values(|e: EntityId| e@) == us@.subrange(0, i as int).map_values(
                |u: u128| EntityIdView::Uuid(u),
            ),
        decreases us.len() - i,
    {
        let ghost before = r@;
        let e = EntityId::Uuid(us[i]);
        assert(e@ == EntityIdView::Uuid(us@[i as int]));
        r.push(e);
        assert(r@ == before.push(e));
        assert(r@.map_values(|e: EntityId| e@) =~= before.map_values(|e: EntityId| e@).push(e@));
        assert(us@.subrange(0, i + 1).map_values(|u: u128| EntityIdView::Uuid(u)) =~= us@.subrange(
            0,
            i as int,
        ).map_values(|u: u128| EntityIdView::Uuid(u)).push(EntityIdView::Uuid(us@[i as int])));
        i = i + 1;
    }
    assert(us@.subrange(0, us@.len() as int) =~= us@);
    r
}

impl FirewallZone {
    /// The domain zone for an Integration API record.
    pub fn from_integration(z: FirewallZoneResponse) -> (f: FirewallZone)
        ensures
            f.id@ == EntityIdView::Uuid(z.id),
            f.name@ == z.name@,
            f.network_ids@.map_values(|i: EntityId| i@) == z.network_ids@.map_values(
                |u: u128| EntityIdView::Uuid(u),
            ),
            f.origin == metadata_origin(z.metadata),
            f.source == DataSource::IntegrationApi,
    {
        let network_ids = uuid_ids(&z.network_ids);
        let origin = origin_from_metadata(&z.metadata);
        FirewallZone {
            id: EntityId::Uuid(z.id),
            name: z.name,
            network_ids,
            origin,
            source: DataSource::IntegrationApi,
        }
    }
}

/// An ACL rule as the Integration API lists it.
pub struct AclRuleResponse {
    pub id: u128,
    pub name: String,
    pub enabled: bool,
    pub rule_type: String,
    pub action: String,
    pub metadata: Json,
}

impl AclRule {
    /// The domain rule for an Integration API record (`MAC` rules by MAC,
    /// all others by IPv4; `ALLOW` allows, anything else blocks).
    pub fn from_integration(r: AclRuleResponse) -> (a: AclRule)
        ensures
            a.id@ == EntityIdView::Uuid(r.id),
            a.name@ == r.name@,
            a.enabled == r.enabled,
            a.rule_type == (if r.rule_type@ == "MAC"@ { AclRuleType::Mac } else { AclRuleType::Ipv4 }),
            a.action == (if r.action@ == "ALLOW"@ { AclAction::Allow } else { AclAction::Block }),
            a.source_summary is None,
            a.destination_summary is None,
            a.origin == metadata_origin(r.metadata),
            a.source == DataSource::IntegrationApi,
    {
        let (rule_type, action) = map_acl_rule(r.rule_type.as_str(), r.action.as_str());
        let origin = origin_from_metadata(&r.metadata);
        AclRule {
            id: EntityId::Uuid(r.id),
            name: r.name,
            enabled: r.enabled,
            rule_type,
            action,
            source_summary: None,
            destination_summary: None,
            origin,
            source: DataSource::IntegrationApi,
        }
    }
}

// ── DNS, traffic lists, vouchers, sites ─────────────────────────────

/// A DNS policy as the Integration API lists it.
pub struct DnsPolicyResponse {
    pub id: u128,
    pub policy_type: String,
    pub domain: Option<String>,
    /// The fields that the record has beyond the ones above.
    pub extra: Json,
}

/// The TTL of a DNS record, truncated to 32 bits, when the extra fields
/// carry an unsigned `ttl`.
pub open spec fn ttl_of(extra: Json) -> Option<u32> {
    match as_u64(get(extra, "ttl"@)) {
        Some(t) => Some(t as u32),
        None => None,
    }
}

/// The text of an optional string, empty when absent.
pub open spec fn text_or_empty(o: Option<Seq<char>>) -> Seq<char> {
    match o {
        Some(s) => s,
        None => Seq::empty(),
    }
}

impl DnsPolicy {
    /// The domain policy for an Integration API record: the record type
    /// from its string, the domain (empty when absent), and the value and
    /// TTL from the extra fields.
    pub fn from_integration(d: DnsPolicyResponse) -> (p: DnsPolicy)
        ensures
            p.id@ == EntityIdView::Uuid(d.id),
            p.policy_type == dns_policy_type_spec(d.policy_type@),
            p.domain@ == text_or_empty(opt_string(d.domain)),
            p.value@ == text_or_empty(as_str(get(d.extra, "value"@))),
            p.ttl_seconds == ttl_of(d.extra),
            p.origin is None,
            p.source == DataSource::IntegrationApi,
    {
        let policy_type = map_dns_policy_type(d.policy_type.as_str());
        let value = match str_of(get_field(&d.extra, "value")) {
            Some(v) => owned(v),
            None => String::new(),
        };
        let ttl_seconds = match u64_of(get_field(&d.extra, "ttl")) {
            Some(t) => Some(t as u32),
            None => None,
        };
        let domain = match d.domain {
            Some(s) => s,
            None => String::new(),
        };
        DnsPolicy {
            id: EntityId::Uuid(d.id),
            policy_type,
            domain,
            value,
            ttl_seconds,
            origin: None,
            source: DataSource::IntegrationApi,
        }
    }
}

/// A traffic matching list as the Integration API lists it.
pub struct TrafficMatchingListResponse {
    pub id: u128,
    pub name: String,
    pub list_type: String,
    /// The fields that the record has beyond the ones above.
    pub extra: Json,
}

impl TrafficMatchingList {
    /// The domain list for an Integration API record: its items are the
    /// string items of the `items` array, in order.
    pub fn from_integration(t: TrafficMatchingListResponse) -> (l: TrafficMatchingList)
        ensures
            l.id@ == EntityIdView::Uuid(t.id),
            l.name@ == t.name@,
            l.list_type@ == t.list_type@,
            l.items@.map_values(|s: String| s@) == string_list(t.extra, "items"@),
            l.origin is None,
    {
        let items = string_items_of(get_field(&t.extra, "items"));
        TrafficMatchingList {
            id: EntityId::Uuid(t.id),
            name: t.name,
            list_type: t.list_type,
            items,
            origin: None,
        }
    }
}

/// A hotspot voucher as the Integration API lists it.
pub struct VoucherResponse {
    pub id: u128,
    pub code: String,
    pub name: String,
    pub expired: bool,
    pub time_limit_minutes: i64,
    pub data_usage_limit_m_bytes: Option<i64>,
    pub authorized_guest_limit: Option<i64>,
    pub authorized_guest_count: i64,
    pub rx_rate_limit_kbps: Option<i64>,
    pub tx_rate_limit_kbps: Option<i64>,
}

/// An optional signed count as an unsigned 32-bit one (two's complement
/// truncation).
pub open spec fn as_u32_opt(o: Option<i64>) -> Option<u32> {
    match o {
        Some(v) => Some(v as u32),
        None => None,
    }
}

/// An optional signed amount as an unsigned 64-bit one (two's complement).
pub open spec fn as_u64_opt(o: Option<i64>) -> Option<u64> {
    match o {
        Some(v) => Some(v as u64),
        None => None,
    }
}

fn to_u32_opt(o: Option<i64>) -> (r: Option<u32>)
    ensures
        r == as_u32_opt(o),
{
    match o {
        Some(v) => Some(v as u32),
        None => None,
    }
}

fn to_u64_opt(o: Option<i64>) -> (r: Option<u64>)
    ensures
        r == as_u64_opt(o),
{
    match o {
        Some(v) => Some(v as u64),
        None => None,
    }
}

impl Voucher {
    /// The domain voucher for an Integration API record; the API's signed
    /// integers are narrowed to the model's unsigned ones.
    pub fn from_integration(v: VoucherResponse) -> (r: Voucher)
        ensures
            r.id@ == EntityIdView::Uuid(v.id),
            r.code@ == v.code@,
            r.name is Some && r.name->0@ == v.name@,
            r.expired == v.expired,
            r.time_limit_minutes == Some(v.time_limit_minutes as u32),
            r.data_usage_limit_mb == as_u64_opt(v.data_usage_limit_m_bytes),
            r.authorized_guest_limit == as_u32_opt(v.authorized_guest_limit),
            r.authorized_guest_count == Some(v.authorized_guest_count as u32),
            r.rx_rate_limit_kbps == as_u64_opt(v.rx_rate_limit_kbps),
            r.tx_rate_limit_kbps == as_u64_opt(v.tx_rate_limit_kbps),
            r.source == DataSource::IntegrationApi,
    {
        Voucher {
            id: EntityId::Uuid(v.id),
            code: v.code,
            name: Some(v.name),
            expired: v.expired,
            time_limit_minutes: Some(v.time_limit_minutes as u32),
            data_usage_limit_mb: to_u64_opt(v.data_usage_limit_m_bytes),
            authorized_guest_limit: to_u32_opt(v.authorized_guest_limit),
            authorized_guest_count: Some(v.authorized_guest_count as u32),
            rx_rate_limit_kbps: to_u64_opt(v.rx_rate_limit_kbps),
            tx_rate_limit_kbps: to_u64_opt(v.tx_rate_limit_kbps),
            source: DataSource::IntegrationApi,
        }
    }
}

/// A site as the Integration API lists it.
pub struct SiteResponse {
    pub id: u128,
    pub internal_reference: String,
    pub name: String,
}

impl Site {
    /// The domain site for an Integration API record (no counts yet).
    pub fn from_integration(s: SiteResponse) -> (site: Site)
        ensures
            site.id@ == EntityIdView::Uuid(s.id),
            site.internal_name@ == s.internal_reference@,
            site.name@ == s.name@,
            site.device_count is None,
            site.client_count is None,
            site.source == DataSource::IntegrationApi,
    {
        Site {
            id: EntityId::Uuid(s.id),
            internal_name: s.internal_reference,
            name: s.name,
            device_count: None,
            client_count: None,
            source: DataSource::IntegrationApi,
        }
    }
}

// ── Devices and clients ─────────────────────────────────────────────

/// A device as the Integration API lists it.
pub struct DeviceResponse {
    pub id: u128,
    pub mac_address: String,
    pub ip_address: Option<String>,
    pub name: String,
    pub model: String,
    pub state: String,
    pub features: Vec<String>,
    pub firmware_version: Option<String>,
    pub firmware_updatable: bool,
    pub supported: bool,
}

impl Device {
    /// The domain device for an Integration API record: type from the
    /// features and model, state from its string, switching and WiFi
    /// from the features.
    pub fn from_integration(d: DeviceResponse) -> (r: Device)
        ensures
            r.id@ == EntityIdView::Uuid(d.id),
            r.mac@ == normalized_mac(d.mac_address@),
            opt_string(r.ip) == crate::network_record::ip_of(opt_string(d.ip_address)),
            r.wan_ipv6 is None,
            r.name is Some && r.name->0@ == d.name@,
            r.model is Some && r.model->0@ == d.model@,
            r.device_type == integration_device_type_spec(d.features@, d.model@),
            r.state == integration_device_state_spec(d.state@),
            opt_string(r.firmware_version) == opt_string(d.firmware_version),
            r.firmware_updatable == d.firmware_updatable,
            r.serial is None,
            r.supported == d.supported,
            r.uplink_device_mac is None,
            r.has_switching == has_feature(d.features@, "switching"@),
            r.has_access_point == has_feature(d.features@, "accessPoint"@),
            r.stats.uptime_secs is None,
            r.stats.uplink_bandwidth is None,
            r.client_count is None,
            r.origin is None,
            r.source == DataSource::IntegrationApi,
    {
        let device_type = infer_device_type_integration(d.features.as_slice(), d.model.as_str());
        let state = map_integration_device_state(d.state.as_str());
        let has_switching = feature_listed(d.features.as_slice(), "switching");
        let has_access_point = feature_listed(d.features.as_slice(), "accessPoint");
        Device {
            id: EntityId::Uuid(d.id),
            mac: MacAddress::new(d.mac_address.as_str()),
            ip: crate::network_record::keep_ip(d.ip_address),
            wan_ipv6: None,
            name: Some(d.name),
            model: Some(d.model),
            device_type,
            state,
            firmware_version: d.firmware_version,
            firmware_updatable: d.firmware_updatable,
            serial: None,
            supported: d.supported,
            uplink_device_mac: None,
            has_switching,
            has_access_point,
            stats: DeviceStats { uptime_secs: None, uplink_bandwidth: None },
            client_count: None,
            origin: None,
            source: DataSource::IntegrationApi,
        }
    }
}

/// A client as the Integration API lists it.
pub struct ClientResponse {
    pub id: u128,
    pub name: String,
    pub client_type: String,
    pub ip_address: Option<String>,
    pub access: Json,
}

/// The MAC text a client is keyed by: the `macAddress` of its access
/// object when non-empty, else the text of its UUID (so that every client
/// still has a key of its own).
pub open spec fn client_mac_text(access: Json, id: u128) -> Seq<char> {
    let m = text_or_empty(as_str(get(access, "macAddress"@)));
    if m.len() == 0 {
        uuid_text(id)
    } else {
        m
    }
}

impl Client {
    /// The domain client for an Integration API record.
    pub fn from_integration(c: ClientResponse) -> (r: Client)
        ensures
            r.id@ == EntityIdView::Uuid(c.id),
            r.mac@ == normalized_mac(client_mac_text(c.access, c.id)),
            opt_string(r.ip) == crate::network_record::ip_of(opt_string(c.ip_address)),
            r.name is Some && r.name->0@ == c.name@,
            r.hostname is None,
            r.client_type == client_type_spec(c.client_type@),
            r.uplink_device_id is None,
            r.uplink_device_mac is None,
            r.network_id is None,
            r.vlan is None,
            r.wireless is None,
            r.guest_auth is None,
            !r.is_guest,
            r.tx_bytes is None,
            r.rx_bytes is None,
            r.bandwidth is None,
            r.os_name is None,
            r.device_class is None,
            !r.blocked,
            r.source == DataSource::IntegrationApi,
    {
        let client_type = map_client_type(c.client_type.as_str());
        let id = EntityId::Uuid(c.id);
        let from_access: &str = match str_of(get_field(&c.access, "macAddress")) {
            Some(m) => m,
            None => "",
        };
        proof {
            reveal_strlit("");
        }
        let mac = if from_access.unicode_len() == 0 {
            let text = id.to_string();
            MacAddress::new(text.as_str())
        } else {
            MacAddress::new(from_access)
        };
        Client {
            id,
            mac,
            ip: crate::network_record::keep_ip(c.ip_address),
            name: Some(c.name),
            hostname: None,
            client_type,
            uplink_device_id: None,
            uplink_device_mac: None,
            network_id: None,
            vlan: None,
            wireless: None,
            guest_auth: None,
            is_guest: false,
            tx_bytes: None,
            rx_bytes: None,
            bandwidth: None,
            os_name: None,
            device_class: None,
            blocked: false,
            source: DataSource::IntegrationApi,
        }
    }
}

/// The first of three entries of an object that is present, read as an
/// unsigned number (0 when none is present or it is not one).
pub open spec fn rate_of(u: Json, k1: Seq<char>, k2: Seq<char>, k3: Seq<char>) -> u64 {
    let entry = match get(u, k1) {
        Some(v) => Some(v),
        None => match get(u, k2) {
            Some(v) => Some(v),
            None => get(u, k3),
        },
    };
    match as_u64(entry) {
        Some(n) => n,
        None => 0,
    }
}

fn rate_in(u: &Json, k1: &str, k2: &str, k3: &str) -> (r: u64)
    ensures
        r == rate_of(*u, k1@, k2@, k3@),
{
    let entry = match get_field(u, k1) {
        Some(v) => Some(v),
        None => match get_field(u, k2) {
            Some(v) => Some(v),
            None => get_field(u, k3),
        },
    };
    match u64_of(entry) {
        Some(n) => n,
        None => 0,
    }
}

/// The uplink bandwidth in a device's statistics: transmit and receive
/// rates under any of the names that firmwares use, none when both are 0.
pub open spec fn uplink_of(uplink: Json) -> Option<Bandwidth> {
    let tx = rate_of(uplink, "txRateBps"@, "txBytesPerSecond"@, "tx_bytes-r"@);
    let rx = rate_of(uplink, "rxRateBps"@, "rxBytesPerSecond"@, "rx_bytes-r"@);
    if tx == 0 && rx == 0 {
        None
    } else {
        Some(Bandwidth { tx_bytes_per_sec: tx, rx_bytes_per_sec: rx })
    }
}

/// The uplink bandwidth in a device's statistics (see `uplink_of`).
pub fn uplink_bandwidth(uplink: &Json) -> (b: Option<Bandwidth>)
    ensures
        b == uplink_of(*uplink),
{
    let tx = rate_in(uplink, "txRateBps", "txBytesPerSecond", "tx_bytes-r");
    let rx = rate_in(uplink, "rxRateBps", "rxBytesPerSecond", "rx_bytes-r");
    if tx == 0 && rx == 0 {
        None
    } else {
        Some(Bandwidth { tx_bytes_per_sec: tx, rx_bytes_per_sec: rx })
    }
}

/// A device's statistics as the Integration API reports them.
pub struct DeviceStatisticsResponse {
    pub uptime_sec: Option<i64>,
    pub uplink: Option<Json>,
}

impl DeviceStats {
    /// The statistics in an Integration API report: the uptime when it is
    /// not negative, the uplink rates when any is non-zero.
    pub fn from_integration(resp: &DeviceStatisticsResponse) -> (s: DeviceStats)
        ensures
            s.uptime_secs == crate::legacy::nonneg_u64(resp.uptime_sec),
            s.uplink_bandwidth == match resp.uplink {
                Some(u) => uplink_of(u),
                None => None,
            },
    {
        let uplink_bandwidth = match &resp.uplink {
            Some(u) => uplink_bandwidth(u),
            None => None,
        };
        DeviceStats { uptime_secs: crate::legacy::to_nonneg_u64(resp.uptime_sec), uplink_bandwidth }
    }
}

} // verus!
