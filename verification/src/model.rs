//! Domain model: the canonical entity types the store holds and the
//! classification enums that conversions produce.
//!
//! Values that the verified logic never reads as numbers stay in their
//! textual or integer form here: addresses are kept as text, timestamps as
//! milliseconds since the Unix epoch.

use vstd::prelude::*;

use crate::entity_id::{EntityId, MacAddress};
use crate::json::Json;

verus! {

// ── Common ──────────────────────────────────────────────────────────

/// Origin metadata: where an entity came from.
#[derive(Debug, Clone, Copy, PartialEq, Eq, Structural)]
pub enum EntityOrigin {
    UserDefined,
    SystemDefined,
    Derived,
    Orchestrated,
}

/// Which API provided a value (internal bookkeeping).
#[derive(Debug, Clone, Copy, PartialEq, Eq, Structural)]
pub enum DataSource {
    IntegrationApi,
    LegacyApi,
    WebSocket,
    Merged,
}

impl Default for DataSource {
    fn default() -> (r: Self)
        ensures
            r == DataSource::IntegrationApi,
    {
        DataSource::IntegrationApi
    }
}

/// Bandwidth measurement.
#[derive(Debug, Clone, Copy, Default, PartialEq, Eq, Structural)]
pub struct Bandwidth {
    pub tx_bytes_per_sec: u64,
    pub rx_bytes_per_sec: u64,
}

/// Throughput over a time period (the period as whole seconds and the
/// remaining nanoseconds).
#[derive(Debug, Clone, Copy, Default, PartialEq, Eq, Structural)]
pub struct Throughput {
    pub tx_bytes: u64,
    pub rx_bytes: u64,
    pub period_secs: u64,
    pub period_nanos: u32,
}

// ── Devices ─────────────────────────────────────────────────────────

/// Broad hardware class of a device.
#[derive(Debug, Clone, Copy, PartialEq, Eq, Hash, Structural)]
pub enum DeviceType {
    Gateway,
    Switch,
    AccessPoint,
    Other,
}

/// Operational state of a device.
#[derive(Debug, Clone, Copy, PartialEq, Eq, Hash, Structural)]
pub enum DeviceState {
    Online,
    Offline,
    PendingAdoption,
    Updating,
    GettingReady,
    Adopting,
    Deleting,
    ConnectionInterrupted,
    Isolated,
    Unknown,
}

impl DeviceState {
    /// Whether the device is up and reachable.
    pub fn is_online(self) -> (r: bool)
        ensures
            r == (self == DeviceState::Online),
    {
        matches!(self, DeviceState::Online)
    }
}

/// Runtime statistics of a device.
#[derive(Debug, Clone, Copy, PartialEq, Eq, Structural)]
pub struct DeviceStats {
    pub uptime_secs: Option<u64>,
    pub uplink_bandwidth: Option<Bandwidth>,
}

/// A network device (gateway, switch, access point).
#[derive(Debug, Clone)]
pub struct Device {
    pub id: EntityId,
    pub mac: MacAddress,
    pub ip: Option<String>,
    pub wan_ipv6: Option<String>,
    pub name: Option<String>,
    pub model: Option<String>,
    pub device_type: DeviceType,
    pub state: DeviceState,
    pub firmware_version: Option<String>,
    pub firmware_updatable: bool,
    pub serial: Option<String>,
    pub supported: bool,
    pub uplink_device_mac: Option<MacAddress>,
    pub has_switching: bool,
    pub has_access_point: bool,
    pub stats: DeviceStats,
    pub client_count: Option<u32>,
    pub origin: Option<EntityOrigin>,
    pub source: DataSource,
}

// ── Clients ─────────────────────────────────────────────────────────

/// Client connection type.
#[derive(Debug, Clone, Copy, PartialEq, Eq, Hash, Structural)]
pub enum ClientType {
    Wired,
    Wireless,
    Vpn,
    Teleport,
    Unknown,
}

/// Guest authorization details.
#[derive(Debug, Clone)]
pub struct GuestAuth {
    pub authorized: bool,
    pub method: Option<String>,
    pub tx_bytes: Option<u64>,
    pub rx_bytes: Option<u64>,
    pub elapsed_minutes: Option<u64>,
}

/// The band a WiFi channel lies in.
#[derive(Debug, Clone, Copy, PartialEq, Eq, Structural)]
pub enum FrequencyBand {
    /// 2.4 GHz.
    Ghz2_4,
    /// 5 GHz.
    Ghz5,
    /// 6 GHz (WiFi 6E / 7).
    Ghz6,
}

/// Wireless connection details (only present for wireless clients).
#[derive(Debug, Clone)]
pub struct WirelessInfo {
    pub ssid: Option<String>,
    pub bssid: Option<MacAddress>,
    pub channel: Option<u32>,
    /// The band of the channel.
    pub frequency_band: Option<FrequencyBand>,
    pub signal_dbm: Option<i32>,
    pub noise_dbm: Option<i32>,
    pub satisfaction: Option<u8>,
    pub tx_rate_kbps: Option<u64>,
    pub rx_rate_kbps: Option<u64>,
}

/// A connected client.
#[derive(Debug, Clone)]
pub struct Client {
    pub id: EntityId,
    pub mac: MacAddress,
    pub ip: Option<String>,
    pub name: Option<String>,
    pub hostname: Option<String>,
    pub client_type: ClientType,
    pub uplink_device_id: Option<EntityId>,
    pub uplink_device_mac: Option<MacAddress>,
    pub network_id: Option<EntityId>,
    pub vlan: Option<u16>,
    pub wireless: Option<WirelessInfo>,
    pub guest_auth: Option<GuestAuth>,
    pub is_guest: bool,
    pub tx_bytes: Option<u64>,
    pub rx_bytes: Option<u64>,
    pub bandwidth: Option<Bandwidth>,
    pub os_name: Option<String>,
    pub device_class: Option<String>,
    pub blocked: bool,
    pub source: DataSource,
}

// ── Networks ────────────────────────────────────────────────────────

/// Network management type (Integration API taxonomy).
#[derive(Debug, Clone, Copy, PartialEq, Eq, Structural)]
pub enum NetworkManagement {
    Gateway,
    Switch,
    Unmanaged,
}

/// Legacy network purpose.
#[derive(Debug, Clone, Copy, PartialEq, Eq, Structural)]
pub enum NetworkPurpose {
    Corporate,
    Guest,
    Wan,
    VlanOnly,
}

/// IPv6 configuration mode.
#[derive(Debug, Clone, Copy, PartialEq, Eq, Structural)]
pub enum Ipv6Mode {
    PrefixDelegation,
    Static,
}

/// DHCP server configuration (addresses as text).
#[derive(Debug, Clone)]
pub struct DhcpConfig {
    pub enabled: bool,
    pub range_start: Option<String>,
    pub range_stop: Option<String>,
    pub lease_time_secs: Option<u64>,
    pub dns_servers: Vec<String>,
    pub gateway: Option<String>,
}

/// Mathematical value of a `DhcpConfig`.
pub struct DhcpView {
    pub enabled: bool,
    pub range_start: Option<Seq<char>>,
    pub range_stop: Option<Seq<char>>,
    pub lease_time_secs: Option<u64>,
    pub dns_servers: Seq<Seq<char>>,
    pub gateway: Option<Seq<char>>,
}

/// The view of an optional owned text.
pub open spec fn text_view(o: Option<String>) -> Option<Seq<char>> {
    match o {
        Some(s) => Some(s@),
        None => None,
    }
}

impl View for DhcpConfig {
    type V = DhcpView;

    open spec fn view(&self) -> DhcpView {
        DhcpView {
            enabled: self.enabled,
            range_start: text_view(self.range_start),
            range_stop: text_view(self.range_stop),
            lease_time_secs: self.lease_time_secs,
            dns_servers: self.dns_servers@.map_values(|s: String| s@),
            gateway: text_view(self.gateway),
        }
    }
}

/// A network (VLAN / subnet).
#[derive(Debug, Clone)]
pub struct Network {
    pub id: EntityId,
    pub name: String,
    pub enabled: bool,
    pub management: Option<NetworkManagement>,
    pub purpose: Option<NetworkPurpose>,
    pub is_default: bool,
    pub vlan_id: Option<u16>,
    pub subnet: Option<String>,
    pub gateway_ip: Option<String>,
    pub dhcp: Option<DhcpConfig>,
    pub ipv6_enabled: bool,
    pub ipv6_mode: Option<Ipv6Mode>,
    pub ipv6_prefix: Option<String>,
    pub dhcpv6_enabled: bool,
    pub slaac_enabled: bool,
    pub ntp_server: Option<String>,
    pub pxe_enabled: bool,
    pub tftp_server: Option<String>,
    pub firewall_zone_id: Option<EntityId>,
    pub isolation_enabled: bool,
    pub internet_access_enabled: bool,
    pub mdns_forwarding_enabled: bool,
    pub cellular_backup_enabled: bool,
    pub origin: Option<EntityOrigin>,
    pub source: DataSource,
}

// ── WiFi ────────────────────────────────────────────────────────────

#[derive(Debug, Clone, Copy, PartialEq, Eq, Structural)]
pub enum WifiBroadcastType {
    Standard,
    IotOptimized,
}

#[derive(Debug, Clone, Copy, PartialEq, Eq, Structural)]
pub enum WifiSecurityMode {
    Open,
    Wpa2Personal,
    Wpa3Personal,
    Wpa2Wpa3Personal,
    Wpa2Enterprise,
    Wpa3Enterprise,
    Wpa2Wpa3Enterprise,
}

/// A WiFi broadcast (SSID).
#[derive(Debug, Clone)]
pub struct WifiBroadcast {
    pub id: EntityId,
    pub name: String,
    pub enabled: bool,
    pub broadcast_type: WifiBroadcastType,
    pub security: WifiSecurityMode,
    pub network_id: Option<EntityId>,
    pub hidden: bool,
    pub client_isolation: bool,
    pub band_steering: bool,
    pub mlo_enabled: bool,
    pub fast_roaming: bool,
    pub hotspot_enabled: bool,
    pub origin: Option<EntityOrigin>,
    pub source: DataSource,
}

// ── Firewall ────────────────────────────────────────────────────────

#[derive(Debug, Clone, Copy, PartialEq, Eq, Structural)]
pub enum FirewallAction {
    Allow,
    Block,
    Reject,
}

#[derive(Debug, Clone, Copy, PartialEq, Eq, Structural)]
pub enum IpVersion {
    Ipv4,
    Ipv6,
    Both,
}

/// Firewall zone: a container for networks.
#[derive(Debug, Clone)]
pub struct FirewallZone {
    pub id: EntityId,
    pub name: String,
    pub network_ids: Vec<EntityId>,
    pub origin: Option<EntityOrigin>,
    pub source: DataSource,
}

/// Firewall policy: a rule between two zones.
#[derive(Debug, Clone)]
pub struct FirewallPolicy {
    pub id: EntityId,
    pub name: String,
    pub description: Option<String>,
    pub enabled: bool,
    pub index: Option<i32>,
    pub action: FirewallAction,
    pub ip_version: IpVersion,
    pub source_zone_id: Option<EntityId>,
    pub destination_zone_id: Option<EntityId>,
    pub source_summary: Option<String>,
    pub destination_summary: Option<String>,
    pub protocol_summary: Option<String>,
    pub schedule: Option<String>,
    pub ipsec_mode: Option<String>,
    pub connection_states: Vec<String>,
    pub logging_enabled: bool,
    pub origin: Option<EntityOrigin>,
    pub source: DataSource,
}

/// ACL rule action.
#[derive(Debug, Clone, Copy, PartialEq, Eq, Structural)]
pub enum AclAction {
    Allow,
    Block,
}

/// ACL rule type.
#[derive(Debug, Clone, Copy, PartialEq, Eq, Structural)]
pub enum AclRuleType {
    Ipv4,
    Mac,
}

/// ACL rule.
#[derive(Debug, Clone)]
pub struct AclRule {
    pub id: EntityId,
    pub name: String,
    pub enabled: bool,
    pub rule_type: AclRuleType,
    pub action: AclAction,
    pub source_summary: Option<String>,
    pub destination_summary: Option<String>,
    pub origin: Option<EntityOrigin>,
    pub source: DataSource,
}

// ── DNS ─────────────────────────────────────────────────────────────

#[derive(Debug, Clone, Copy, PartialEq, Eq, Structural)]
pub enum DnsPolicyType {
    ARecord,
    AaaaRecord,
    CnameRecord,
    MxRecord,
    TxtRecord,
    SrvRecord,
    ForwardDomain,
}

/// DNS policy.
#[derive(Debug, Clone)]
pub struct DnsPolicy {
    pub id: EntityId,
    pub policy_type: DnsPolicyType,
    pub domain: String,
    pub value: String,
    pub ttl_seconds: Option<u32>,
    pub origin: Option<EntityOrigin>,
    pub source: DataSource,
}

// ── Hotspot, sites, supporting ──────────────────────────────────────

/// Voucher for guest hotspot access.
#[derive(Debug, Clone)]
pub struct Voucher {
    pub id: EntityId,
    pub code: String,
    pub name: Option<String>,
    pub expired: bool,
    pub time_limit_minutes: Option<u32>,
    pub data_usage_limit_mb: Option<u64>,
    pub authorized_guest_limit: Option<u32>,
    pub authorized_guest_count: Option<u32>,
    pub rx_rate_limit_kbps: Option<u64>,
    pub tx_rate_limit_kbps: Option<u64>,
    pub source: DataSource,
}

/// A site managed by the controller.
#[derive(Debug, Clone)]
pub struct Site {
    pub id: EntityId,
    /// Internal reference name (e.g. "default").
    pub internal_name: String,
    /// Human-friendly display name.
    pub name: String,
    pub device_count: Option<u32>,
    pub client_count: Option<u32>,
    pub source: DataSource,
}

/// Traffic matching list.
#[derive(Debug, Clone)]
pub struct TrafficMatchingList {
    pub id: EntityId,
    pub name: String,
    pub list_type: String,
    pub items: Vec<String>,
    pub origin: Option<EntityOrigin>,
}

// ── Events ──────────────────────────────────────────────────────────

#[derive(Debug, Clone, Copy, PartialEq, Eq, Structural)]
pub enum EventCategory {
    Device,
    Client,
    Network,
    System,
    Admin,
    Firewall,
    Vpn,
    Unknown,
}

#[derive(Debug, Clone, Copy, PartialEq, Eq, Structural)]
pub enum EventSeverity {
    Info,
    Warning,
    Error,
    Critical,
}

/// Unified event from the WebSocket stream or the legacy event log.
#[derive(Debug, Clone)]
pub struct Event {
    pub id: Option<EntityId>,
    /// Milliseconds since the Unix epoch.
    pub timestamp_millis: i64,
    pub category: EventCategory,
    pub severity: EventSeverity,
    pub event_type: String,
    pub message: String,
    pub device_mac: Option<MacAddress>,
    pub client_mac: Option<MacAddress>,
    pub site_id: Option<EntityId>,
    pub raw_key: Option<String>,
    pub source: DataSource,
}

/// A controller alarm.
#[derive(Debug, Clone)]
pub struct Alarm {
    pub id: EntityId,
    /// Milliseconds since the Unix epoch.
    pub timestamp_millis: i64,
    pub category: EventCategory,
    pub severity: EventSeverity,
    pub message: String,
    pub archived: bool,
    pub device_mac: Option<MacAddress>,
    pub site_id: Option<EntityId>,
}

// ── Legacy resources ────────────────────────────────────────────────

/// Country entry.
#[derive(Debug, Clone)]
pub struct Country {
    pub code: String,
    pub name: String,
}

/// DPI application entry.
#[derive(Debug, Clone)]
pub struct DpiApplication {
    pub id: u32,
    pub name: String,
    pub category_id: u32,
    pub tx_bytes: u64,
    pub rx_bytes: u64,
}

/// DPI category entry.
#[derive(Debug, Clone)]
pub struct DpiCategory {
    pub id: u32,
    pub name: String,
    pub tx_bytes: u64,
    pub rx_bytes: u64,
    pub apps: Vec<DpiApplication>,
}

/// Controller system info (from the Integration API's `info` or the
/// Legacy API's `stat/sysinfo`).
#[derive(Debug, Clone)]
pub struct SystemInfo {
    pub controller_name: Option<String>,
    pub version: String,
    pub build: Option<String>,
    pub hostname: Option<String>,
    /// The controller's address, as text.
    pub ip: Option<String>,
    pub uptime_secs: Option<u64>,
    pub update_available: Option<bool>,
}

/// Health summary of a subsystem (`www`, `wlan`, `wan`, `lan`, `vpn`).
#[derive(Debug)]
pub struct HealthSummary {
    pub subsystem: String,
    /// `ok`, `warn` or `error`.
    pub status: String,
    pub num_adopted: Option<u32>,
    pub num_sta: Option<u32>,
    pub tx_bytes_r: Option<u64>,
    pub rx_bytes_r: Option<u64>,
    pub wan_ip: Option<String>,
    pub gateways: Option<Vec<String>>,
    /// The whole record.
    pub extra: Json,
}

/// Low-level controller system info (Legacy `stat/sysinfo`).
#[derive(Debug)]
pub struct SysInfo {
    pub timezone: Option<String>,
    pub autobackup: Option<bool>,
    pub hostname: Option<String>,
    pub ip_addrs: Vec<String>,
    pub live_chat: Option<String>,
    pub data_retention_days: Option<u32>,
    /// The whole record.
    pub extra: Json,
}

/// Administrator account.
#[derive(Debug, Clone)]
pub struct Admin {
    pub id: EntityId,
    pub name: String,
    pub email: Option<String>,
    /// `admin`, `readonly` or `custom`.
    pub role: String,
    pub is_super: bool,
}

/// VPN server.
#[derive(Debug, Clone)]
pub struct VpnServer {
    pub id: EntityId,
    pub name: Option<String>,
    /// `OPENVPN`, `WIREGUARD`, `L2TP`, `PPTP`, `UID`.
    pub server_type: String,
    pub enabled: Option<bool>,
}

/// Site-to-site VPN tunnel.
#[derive(Debug, Clone)]
pub struct VpnTunnel {
    pub id: EntityId,
    pub name: Option<String>,
    /// `OPENVPN`, `IPSEC`, `WIREGUARD`.
    pub tunnel_type: String,
    pub enabled: Option<bool>,
}

/// WAN interface (addresses as text).
#[derive(Debug, Clone)]
pub struct WanInterface {
    pub id: EntityId,
    pub name: Option<String>,
    pub ip: Option<String>,
    pub gateway: Option<String>,
    pub dns: Vec<String>,
}

/// RADIUS profile.
#[derive(Debug, Clone)]
pub struct RadiusProfile {
    pub id: EntityId,
    pub name: String,
}

/// Interval for historical stats queries.
#[derive(Debug, Clone, Copy, PartialEq, Eq, Structural)]
pub enum StatsInterval {
    FiveMinutes,
    Hourly,
    Daily,
}

} // verus!
