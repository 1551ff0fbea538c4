//! Typed request payloads for commands that create or update entities.

use vstd::prelude::*;

use crate::entity_id::EntityId;
use crate::model::{DnsPolicyType, FirewallAction, NetworkPurpose, WifiSecurityMode};

verus! {

#[derive(Debug, Clone)]
pub struct CreateNetworkRequest {
    pub name: String,
    pub vlan_id: Option<u16>,
    pub subnet: Option<String>,
    pub purpose: Option<NetworkPurpose>,
    pub dhcp_enabled: bool,
    pub enabled: bool,
    pub dhcp_range_start: Option<String>,
    pub dhcp_range_stop: Option<String>,
    pub dhcp_lease_time: Option<u32>,
    pub firewall_zone_id: Option<String>,
    pub isolation_enabled: bool,
    pub internet_access_enabled: bool,
}

/// Partial update of a network; `None` fields are left unchanged.
#[derive(Debug, Clone, Default)]
pub struct UpdateNetworkRequest {
    pub name: Option<String>,
    pub vlan_id: Option<u16>,
    pub subnet: Option<String>,
    pub dhcp_enabled: Option<bool>,
    pub enabled: Option<bool>,
    pub isolation_enabled: Option<bool>,
    pub internet_access_enabled: Option<bool>,
    pub mdns_forwarding_enabled: Option<bool>,
    pub ipv6_enabled: Option<bool>,
}

#[derive(Debug, Clone)]
pub struct CreateWifiBroadcastRequest {
    pub name: String,
    pub ssid: String,
    pub security_mode: WifiSecurityMode,
    pub passphrase: Option<String>,
    pub enabled: bool,
    pub network_id: Option<EntityId>,
    pub hide_ssid: bool,
}

#[derive(Debug, Clone, Default)]
pub struct UpdateWifiBroadcastRequest {
    pub name: Option<String>,
    pub ssid: Option<String>,
    pub security_mode: Option<WifiSecurityMode>,
    pub passphrase: Option<String>,
    pub enabled: Option<bool>,
    pub hide_ssid: Option<bool>,
}

#[derive(Debug, Clone)]
pub struct CreateFirewallPolicyRequest {
    pub name: String,
    pub action: FirewallAction,
    pub source_zone_id: EntityId,
    pub destination_zone_id: EntityId,
    pub enabled: bool,
    pub logging_enabled: bool,
    pub description: Option<String>,
    pub protocol: Option<String>,
    pub source_address: Option<String>,
    pub destination_address: Option<String>,
    pub destination_port: Option<String>,
}

#[derive(Debug, Clone, Default)]
pub struct UpdateFirewallPolicyRequest {
    pub name: Option<String>,
    pub action: Option<FirewallAction>,
    pub enabled: Option<bool>,
    pub description: Option<String>,
    pub protocol: Option<String>,
    pub source_address: Option<String>,
    pub destination_address: Option<String>,
    pub destination_port: Option<String>,
}

#[derive(Debug, Clone)]
pub struct CreateFirewallZoneRequest {
    pub name: String,
    pub description: Option<String>,
    pub network_ids: Vec<EntityId>,
}

#[derive(Debug, Clone, Default)]
pub struct UpdateFirewallZoneRequest {
    pub name: Option<String>,
    pub description: Option<String>,
    pub network_ids: Option<Vec<EntityId>>,
}

#[derive(Debug, Clone)]
pub struct CreateAclRuleRequest {
    pub name: String,
    pub action: FirewallAction,
    pub source_zone_id: EntityId,
    pub destination_zone_id: EntityId,
    pub protocol: Option<String>,
    pub source_port: Option<String>,
    pub destination_port: Option<String>,
    pub enabled: bool,
}

#[derive(Debug, Clone, Default)]
pub struct UpdateAclRuleRequest {
    pub name: Option<String>,
    pub action: Option<FirewallAction>,
    pub enabled: Option<bool>,
    pub protocol: Option<String>,
}

#[derive(Debug, Clone)]
pub struct CreateDnsPolicyRequest {
    pub name: String,
    pub policy_type: DnsPolicyType,
    pub enabled: bool,
    pub domains: Option<Vec<String>>,
    pub upstream: Option<String>,
}

#[derive(Debug, Clone, Default)]
pub struct UpdateDnsPolicyRequest {
    pub name: Option<String>,
    pub enabled: Option<bool>,
    pub domains: Option<Vec<String>>,
    pub upstream: Option<String>,
}

#[derive(Debug, Clone)]
pub struct CreateTrafficMatchingListRequest {
    pub name: String,
    pub entries: Vec<String>,
    pub description: Option<String>,
}

#[derive(Debug, Clone, Default)]
pub struct UpdateTrafficMatchingListRequest {
    pub name: Option<String>,
    pub entries: Option<Vec<String>>,
    pub description: Option<String>,
}

#[derive(Debug, Clone)]
pub struct CreateVouchersRequest {
    pub count: u32,
    pub name: Option<String>,
    pub time_limit_minutes: Option<u32>,
    pub data_usage_limit_mb: Option<u64>,
    pub rx_rate_limit_kbps: Option<u64>,
    pub tx_rate_limit_kbps: Option<u64>,
    pub authorized_guest_limit: Option<u32>,
}

} // verus!
