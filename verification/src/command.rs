//! Write operations and their routing: every command goes to the
//! Integration API when it can, to the legacy API for what only that API
//! offers, and is refused with a precise error otherwise. Routing decides
//! the call and its arguments; performing it is the caller's part.

use vstd::prelude::*;

use crate::controller::{
    all_uuids, ids_view, is_legacy_id_error, is_unsupported, require_uuid, require_uuids,
    unsupported, CoreError,
};
use crate::entity_id::{id_text, EntityId, EntityIdView, MacAddress};
use crate::json::Json;
use crate::model::{DnsPolicyType, FirewallAction};
use crate::requests::{
    CreateAclRuleRequest, CreateDnsPolicyRequest, CreateFirewallPolicyRequest,
    CreateFirewallZoneRequest, CreateNetworkRequest, CreateTrafficMatchingListRequest,
    CreateVouchersRequest, CreateWifiBroadcastRequest, UpdateAclRuleRequest, UpdateDnsPolicyRequest,
    UpdateFirewallPolicyRequest, UpdateFirewallZoneRequest, UpdateNetworkRequest,
    UpdateTrafficMatchingListRequest, UpdateWifiBroadcastRequest,
};
use crate::store::DataStore;
use crate::text::owned;

verus! {

/// All write operations against a controller.
#[derive(Debug)]
pub enum Command {
    AdoptDevice { mac: MacAddress },
    RemoveDevice { id: EntityId },
    RestartDevice { id: EntityId },
    LocateDevice { mac: MacAddress, enable: bool },
    UpgradeDevice { mac: MacAddress, firmware_url: Option<String> },
    ProvisionDevice { mac: MacAddress },
    SpeedtestDevice,
    PowerCyclePort { device_id: EntityId, port_idx: u32 },
    BlockClient { mac: MacAddress },
    UnblockClient { mac: MacAddress },
    KickClient { mac: MacAddress },
    ForgetClient { mac: MacAddress },
    AuthorizeGuest {
        client_id: EntityId,
        time_limit_minutes: Option<u32>,
        data_limit_mb: Option<u64>,
        rx_rate_kbps: Option<u64>,
        tx_rate_kbps: Option<u64>,
    },
    UnauthorizeGuest { client_id: EntityId },
    CreateNetwork(CreateNetworkRequest),
    UpdateNetwork { id: EntityId, update: UpdateNetworkRequest },
    DeleteNetwork { id: EntityId, force: bool },
    CreateWifiBroadcast(CreateWifiBroadcastRequest),
    UpdateWifiBroadcast { id: EntityId, update: UpdateWifiBroadcastRequest },
    DeleteWifiBroadcast { id: EntityId, force: bool },
    CreateFirewallPolicy(CreateFirewallPolicyRequest),
    UpdateFirewallPolicy { id: EntityId, update: UpdateFirewallPolicyRequest },
    DeleteFirewallPolicy { id: EntityId },
    PatchFirewallPolicy { id: EntityId, enabled: bool },
    ReorderFirewallPolicies { zone_pair: (EntityId, EntityId), ordered_ids: Vec<EntityId> },
    CreateFirewallZone(CreateFirewallZoneRequest),
    UpdateFirewallZone { id: EntityId, update: UpdateFirewallZoneRequest },
    DeleteFirewallZone { id: EntityId },
    CreateAclRule(CreateAclRuleRequest),
    UpdateAclRule { id: EntityId, update: UpdateAclRuleRequest },
    DeleteAclRule { id: EntityId },
    ReorderAclRules { ordered_ids: Vec<EntityId> },
    CreateDnsPolicy(CreateDnsPolicyRequest),
    UpdateDnsPolicy { id: EntityId, update: UpdateDnsPolicyRequest },
    DeleteDnsPolicy { id: EntityId },
    CreateTrafficMatchingList(CreateTrafficMatchingListRequest),
    UpdateTrafficMatchingList { id: EntityId, update: UpdateTrafficMatchingListRequest },
    DeleteTrafficMatchingList { id: EntityId },
    CreateVouchers(CreateVouchersRequest),
    DeleteVoucher { id: EntityId },
    PurgeVouchers { filter: String },
    ArchiveAlarm { id: EntityId },
    ArchiveAllAlarms,
    CreateSite { name: String, description: String },
    DeleteSite { name: String },
    CreateBackup,
    DeleteBackup { filename: String },
    RebootController,
    PoweroffController,
    InviteAdmin { name: String, email: String, role: String },
    RevokeAdmin { id: EntityId },
    UpdateAdmin { id: EntityId, role: Option<String> },
}

/// Which API clients the connection has.
#[derive(Debug, Clone, Copy, PartialEq, Eq, Structural)]
pub struct Backends {
    /// An Integration API client exists.
    pub integration: bool,
    /// The Integration API's id of the site, once resolved.
    pub site_id: Option<u128>,
    /// A legacy API client exists.
    pub legacy: bool,
}

/// The Integration API can be used: a client and a resolved site.
pub open spec fn integration_ready(b: Backends) -> bool {
    b.integration && b.site_id is Some
}

/// Body of a network create or update.
#[derive(Debug)]
pub struct NetworkBody {
    pub name: String,
    pub enabled: bool,
    pub management: String,
    pub vlan_id: i32,
    /// The network's DHCP guarding settings, as the controller gives them.
    pub dhcp_guarding: Option<Json>,
}

/// Body of a voucher creation.
#[derive(Debug, Clone)]
pub struct VoucherBody {
    pub name: String,
    pub count: Option<i32>,
    pub time_limit_minutes: i64,
    pub authorized_guest_limit: Option<i64>,
    pub data_usage_limit_mbytes: Option<i64>,
    pub rx_rate_limit_kbps: Option<i64>,
    pub tx_rate_limit_kbps: Option<i64>,
}

/// A call to the Integration API (on the connection's site).
#[derive(Debug)]
pub enum IntegrationCall {
    AdoptDevice { mac: MacAddress },
    DeviceAction { device: u128, action: String },
    RemoveDevice { device: u128 },
    PortAction { device: u128, port_idx: u32, action: String },
    ClientAction { client: u128, action: String },
    CreateNetwork(NetworkBody),
    /// Fetch the network, merge the update into it (`merge_network_update`)
    /// and write it back.
    UpdateNetwork { network: u128, update: UpdateNetworkRequest },
    DeleteNetwork { network: u128 },
    CreateWifiBroadcast {
        name: String,
        broadcast_type: String,
        enabled: bool,
        passphrase: Option<String>,
    },
    DeleteWifiBroadcast { broadcast: u128 },
    CreateFirewallPolicy {
        name: String,
        description: Option<String>,
        enabled: bool,
        action: String,
        source_zone: String,
        destination_zone: String,
        logging_enabled: bool,
    },
    DeleteFirewallPolicy { policy: u128 },
    PatchFirewallPolicy { policy: u128, enabled: bool },
    SetFirewallPolicyOrdering { before_system_defined: Vec<u128> },
    CreateFirewallZone { name: String, network_ids: Vec<u128> },
    /// Fetch the zone, merge the update into it (`merge_zone_update`) and
    /// write it back.
    UpdateFirewallZone { zone: u128, update: UpdateFirewallZoneRequest },
    DeleteFirewallZone { zone: u128 },
    CreateAclRule { name: String, rule_type: String, action: String, enabled: bool },
    /// Fetch the rule, merge the update into it (`merge_acl_update`) and
    /// write it back.
    UpdateAclRule { rule: u128, update: UpdateAclRuleRequest },
    DeleteAclRule { rule: u128 },
    SetAclRuleOrdering { ordered_acl_rule_ids: Vec<u128> },
    CreateDnsPolicy { policy_type: String, enabled: bool },
    DeleteDnsPolicy { policy: u128 },
    CreateTrafficMatchingList {
        name: String,
        list_type: String,
        entries: Vec<String>,
        description: Option<String>,
    },
    /// Fetch the list, merge the update into it (`merge_list_update`) and
    /// write it back.
    UpdateTrafficMatchingList { list: u128, update: UpdateTrafficMatchingListRequest },
    DeleteTrafficMatchingList { list: u128 },
    CreateVouchers(VoucherBody),
    DeleteVoucher { voucher: u128 },
    PurgeVouchers { filter: String },
}

/// A call to the legacy API.
#[derive(Debug)]
pub enum LegacyCall {
    AdoptDevice { mac: MacAddress },
    RestartDevice { mac: MacAddress },
    LocateDevice { mac: MacAddress, enable: bool },
    UpgradeDevice { mac: MacAddress, firmware_url: Option<String> },
    BlockClient { mac: MacAddress },
    UnblockClient { mac: MacAddress },
    KickClient { mac: MacAddress },
    ForgetClient { mac: MacAddress },
    AuthorizeGuest {
        mac: MacAddress,
        minutes: u32,
        tx_rate_kbps: Option<u32>,
        rx_rate_kbps: Option<u32>,
        data_limit_mb: Option<u32>,
    },
    ArchiveAlarm { id: String },
    CreateBackup,
}

/// Where a command goes.
#[derive(Debug)]
pub enum Route {
    Integration { site: u128, call: IntegrationCall },
    Legacy(LegacyCall),
}

// ── Texts of the API's enumerations ─────────────────────────────────

/// A firewall policy's action as the Integration API names it.
pub open spec fn policy_action_text(a: FirewallAction) -> Seq<char> {
    match a {
        FirewallAction::Allow => "ALLOW"@,
        FirewallAction::Block => "DROP"@,
        FirewallAction::Reject => "REJECT"@,
    }
}

/// An ACL rule's action as the Integration API names it.
pub open spec fn acl_action_text(a: FirewallAction) -> Seq<char> {
    match a {
        FirewallAction::Allow => "ALLOW"@,
        FirewallAction::Block => "BLOCK"@,
        FirewallAction::Reject => "REJECT"@,
    }
}

/// The action texts the Integration API knows for firewall policies.
pub open spec fn is_policy_action(t: Seq<char>) -> bool {
    t == "ALLOW"@ || t == "DROP"@ || t == "REJECT"@
}

/// Firewall policy actions: each is one the Integration API knows for
/// policies, distinct actions get distinct texts, and a blocking policy
/// drops; policies and ACL rules name every action alike except blocking,
/// which policies call `DROP` and ACL rules `BLOCK`.
pub proof fn lemma_policy_action_texts(a: FirewallAction, b: FirewallAction)
    ensures
        is_policy_action(policy_action_text(a)),
        policy_action_text(a) == policy_action_text(b) ==> a == b,
        a == FirewallAction::Block <==> policy_action_text(a) == "DROP"@,
        policy_action_text(a) == acl_action_text(a) <==> a != FirewallAction::Block,
        policy_action_text(a) != "BLOCK"@,
{
    reveal_strlit("ALLOW");
    reveal_strlit("DROP");
    reveal_strlit("REJECT");
    reveal_strlit("BLOCK");
    assert("ALLOW"@.len() == 5 && "DROP"@.len() == 4 && "REJECT"@.len() == 6 && "BLOCK"@.len() == 5);
    assert("BLOCK"@[0] != "ALLOW"@[0]);
    assert("ALLOW"@ != "DROP"@ && "ALLOW"@ != "REJECT"@ && "DROP"@ != "REJECT"@);
    assert("BLOCK"@ != "ALLOW"@ && "BLOCK"@ != "DROP"@ && "BLOCK"@ != "REJECT"@);
}

/// A DNS policy's type as the Integration API names it.
pub open spec fn dns_type_text(t: DnsPolicyType) -> Seq<char> {
    match t {
        DnsPolicyType::ARecord => "A"@,
        DnsPolicyType::AaaaRecord => "AAAA"@,
        DnsPolicyType::CnameRecord => "CNAME"@,
        DnsPolicyType::MxRecord => "MX"@,
        DnsPolicyType::TxtRecord => "TXT"@,
        DnsPolicyType::SrvRecord => "SRV"@,
        DnsPolicyType::ForwardDomain => "FORWARD_DOMAIN"@,
    }
}

fn policy_action_name(a: FirewallAction) -> (s: String)
    ensures
        s@ == policy_action_text(a),
{
    match a {
        FirewallAction::Allow => owned("ALLOW"),
        FirewallAction::Block => owned("DROP"),
        FirewallAction::Reject => owned("REJECT"),
    }
}

fn acl_action_name(a: FirewallAction) -> (s: String)
    ensures
        s@ == acl_action_text(a),
{
    match a {
        FirewallAction::Allow => owned("ALLOW"),
        FirewallAction::Block => owned("BLOCK"),
        FirewallAction::Reject => owned("REJECT"),
    }
}

fn dns_type_name(t: DnsPolicyType) -> (s: String)
    ensures
        s@ == dns_type_text(t),
{
    match t {
        DnsPolicyType::ARecord => owned("A"),
        DnsPolicyType::AaaaRecord => owned("AAAA"),
        DnsPolicyType::CnameRecord => owned("CNAME"),
        DnsPolicyType::MxRecord => owned("MX"),
        DnsPolicyType::TxtRecord => owned("TXT"),
        DnsPolicyType::SrvRecord => owned("SRV"),
        DnsPolicyType::ForwardDomain => owned("FORWARD_DOMAIN"),
    }
}

// ── The routing contract ────────────────────────────────────────────

/// The text of an optional string.
pub open spec fn opt_text(s: Option<String>) -> Option<Seq<char>> {
    match s {
        Some(t) => Some(t@),
        None => None,
    }
}

/// `r` is a call on the Integration API of the connection's site.
pub open spec fn on_site(r: Result<Route, CoreError>, b: Backends) -> bool {
    r matches Ok(Route::Integration { site, call: _ }) && b.site_id == Some(site)
}

/// The integration call `r` routes to, if any.
pub open spec fn integration_call(r: Result<Route, CoreError>) -> Option<IntegrationCall> {
    match r {
        Ok(Route::Integration { site: _, call }) => Some(call),
        _ => None,
    }
}

/// The legacy call `r` routes to, if any.
pub open spec fn legacy_call(r: Result<Route, CoreError>) -> Option<LegacyCall> {
    match r {
        Ok(Route::Legacy(call)) => Some(call),
        _ => None,
    }
}

/// `r` refuses the command for want of the Integration API.
pub open spec fn refused(r: Result<Route, CoreError>, operation: Seq<char>) -> bool {
    r matches Err(e) && is_unsupported(e, operation)
}

/// `r` refuses the command because an id it names is a legacy id.
pub open spec fn refused_legacy_id(r: Result<Route, CoreError>) -> bool {
    r matches Err(e) && is_legacy_id_error(e)
}

/// `r` refuses the command for want of a legacy client.
pub open spec fn disconnected(r: Result<Route, CoreError>) -> bool {
    r matches Err(CoreError::ControllerDisconnected)
}

/// Routing of an integration-only command named `op` whose id `id` must be
/// a UUID; `call` says what the call is for that UUID.
pub open spec fn on_uuid(
    r: Result<Route, CoreError>,
    b: Backends,
    op: Seq<char>,
    id: EntityIdView,
    call: spec_fn(u128, IntegrationCall) -> bool,
) -> bool {
    if !integration_ready(b) {
        refused(r, op)
    } else {
        match id {
            EntityIdView::Uuid(u) => on_site(r, b) && call(u, integration_call(r).unwrap()),
            EntityIdView::Legacy(_) => refused_legacy_id(r),
        }
    }
}

/// Routing of an integration-only command named `op` that names no id.
pub open spec fn on_integration(
    r: Result<Route, CoreError>,
    b: Backends,
    op: Seq<char>,
    call: spec_fn(IntegrationCall) -> bool,
) -> bool {
    if !integration_ready(b) {
        refused(r, op)
    } else {
        on_site(r, b) && call(integration_call(r).unwrap())
    }
}

/// Routing of a legacy-only command.
pub open spec fn on_legacy(
    r: Result<Route, CoreError>,
    b: Backends,
    call: spec_fn(LegacyCall) -> bool,
) -> bool {
    if !b.legacy {
        disconnected(r)
    } else {
        r is Ok && legacy_call(r) is Some && call(legacy_call(r).unwrap())
    }
}

/// Routing of an integration-only command that the core does not
/// implement yet: after the usual checks it is refused with `msg`.
pub open spec fn refused_update(
    r: Result<Route, CoreError>,
    b: Backends,
    op: Seq<char>,
    id: EntityIdView,
    msg: Seq<char>,
) -> bool {
    if !integration_ready(b) {
        refused(r, op)
    } else {
        match id {
            EntityIdView::Uuid(_) => refused(r, msg),
            EntityIdView::Legacy(_) => refused_legacy_id(r),
        }
    }
}

/// `c` is the device action `action` on device `u`.
pub open spec fn device_action(c: IntegrationCall, u: u128, action: Seq<char>) -> bool {
    c matches IntegrationCall::DeviceAction { device, action: a } && device == u && a@ == action
}

/// `c` is the client action `action` on client `u`.
pub open spec fn client_action(c: IntegrationCall, u: u128, action: Seq<char>) -> bool {
    c matches IntegrationCall::ClientAction { client, action: a } && client == u && a@ == action
}

/// Routing of a client action for the client with MAC `mac`: through the
/// Integration API on the client's UUID when it can (the client must be
/// in the store), otherwise through the legacy call `legacy`.
pub open spec fn client_command(
    r: Result<Route, CoreError>,
    b: Backends,
    store: DataStore,
    mac: MacAddress,
    action: Seq<char>,
    legacy: spec_fn(LegacyCall) -> bool,
) -> bool {
    if integration_ready(b) {
        if !store.clients.by_key().dom().contains(mac@) {
            r matches Err(CoreError::ClientNotFound { identifier }) && identifier@ == mac@
        } else {
            match store.clients.by_key()[mac@].id@ {
                EntityIdView::Uuid(u) => on_site(r, b) && client_action(
                    integration_call(r).unwrap(),
                    u,
                    action,
                ),
                EntityIdView::Legacy(_) => refused_legacy_id(r),
            }
        }
    } else {
        on_legacy(r, b, legacy)
    }
}

/// The route of every command, for the clients the connection has and
/// the entities the store holds.
pub open spec fn route_fits(r: Result<Route, CoreError>, cmd: Command, b: Backends, store: DataStore) -> bool {
    match cmd {
        Command::AdoptDevice { mac } => if integration_ready(b) {
            on_site(r, b) && (integration_call(r).unwrap() matches IntegrationCall::AdoptDevice {
                mac: m,
            } && m@ == mac@)
        } else {
            on_legacy(r, b, |c: LegacyCall| c matches LegacyCall::AdoptDevice { mac: m } && m@ == mac@)
        },
        Command::RestartDevice { id } => if integration_ready(b) {
            match id@ {
                EntityIdView::Uuid(u) => on_site(r, b) && device_action(
                    integration_call(r).unwrap(),
                    u,
                    "RESTART"@,
                ),
                EntityIdView::Legacy(_) => refused_legacy_id(r),
            }
        } else if !b.legacy {
            disconnected(r)
        } else if !store.devices.id_index().dom().contains(id@) {
            r matches Err(CoreError::DeviceNotFound { identifier }) && identifier@ == id_text(id@)
        } else {
            legacy_call(r) matches Some(LegacyCall::RestartDevice { mac: m }) && m@
                == store.devices.by_key()[store.devices.id_index()[id@]].mac@
        },
        Command::LocateDevice { mac, enable } => if integration_ready(b) {
            if !store.devices.by_key().dom().contains(mac@) {
                r matches Err(CoreError::DeviceNotFound { identifier }) && identifier@ == mac@
            } else {
                match store.devices.by_key()[mac@].id@ {
                    EntityIdView::Uuid(u) => on_site(r, b) && device_action(
                        integration_call(r).unwrap(),
                        u,
                        if enable { "LOCATE_ON"@ } else { "LOCATE_OFF"@ },
                    ),
                    EntityIdView::Legacy(_) => refused_legacy_id(r),
                }
            }
        } else {
            on_legacy(
                r,
                b,
                |c: LegacyCall|
                    c matches LegacyCall::LocateDevice { mac: m, enable: e } && m@ == mac@ && e
                        == enable,
            )
        },
        Command::UpgradeDevice { mac, firmware_url } => on_legacy(
            r,
            b,
            |c: LegacyCall|
                c matches LegacyCall::UpgradeDevice { mac: m, firmware_url: u } && m@ == mac@
                    && opt_text(u) == opt_text(firmware_url),
        ),
        Command::RemoveDevice { id } => on_uuid(
            r,
            b,
            "RemoveDevice"@,
            id@,
            |u: u128, c: IntegrationCall| c matches IntegrationCall::RemoveDevice { device } && device == u,
        ),
        Command::ProvisionDevice { .. } => refused(r, "ProvisionDevice"@),
        Command::SpeedtestDevice => refused(r, "SpeedtestDevice"@),
        Command::PowerCyclePort { device_id, port_idx } => on_uuid(
            r,
            b,
            "PowerCyclePort"@,
            device_id@,
            |u: u128, c: IntegrationCall|
                c matches IntegrationCall::PortAction { device, port_idx: p, action } && device == u
                    && p == port_idx && action@ == "POWER_CYCLE"@,
        ),
        Command::BlockClient { mac } => client_command(
            r,
            b,
            store,
            mac,
            "BLOCK"@,
            |c: LegacyCall| c matches LegacyCall::BlockClient { mac: m } && m@ == mac@,
        ),
        Command::UnblockClient { mac } => client_command(
            r,
            b,
            store,
            mac,
            "UNBLOCK"@,
            |c: LegacyCall| c matches LegacyCall::UnblockClient { mac: m } && m@ == mac@,
        ),
        Command::KickClient { mac } => client_command(
            r,
            b,
            store,
            mac,
            "RECONNECT"@,
            |c: LegacyCall| c matches LegacyCall::KickClient { mac: m } && m@ == mac@,
        ),
        Command::ForgetClient { mac } => on_legacy(
            r,
            b,
            |c: LegacyCall| c matches LegacyCall::ForgetClient { mac: m } && m@ == mac@,
        ),
        Command::AuthorizeGuest {
            client_id,
            time_limit_minutes,
            data_limit_mb,
            rx_rate_kbps,
            tx_rate_kbps,
        } => if !b.legacy {
            disconnected(r)
        } else if !store.clients.id_index().dom().contains(client_id@) {
            r matches Err(CoreError::ClientNotFound { identifier }) && identifier@ == id_text(
                client_id@,
            )
        } else {
            legacy_call(r) matches Some(
                LegacyCall::AuthorizeGuest { mac, minutes, tx_rate_kbps: tx, rx_rate_kbps: rx, data_limit_mb: d },
            ) && mac@ == store.clients.by_key()[store.clients.id_index()[client_id@]].mac@
                && minutes == (match time_limit_minutes {
                Some(m) => m,
                None => 60u32,
            }) && tx == (match tx_rate_kbps {
                Some(t) => Some(t as u32),
                None => None,
            }) && rx == (match rx_rate_kbps {
                Some(t) => Some(t as u32),
                None => None,
            }) && d == (match data_limit_mb {
                Some(t) => Some(t as u32),
                None => None,
            })
        },
        Command::UnauthorizeGuest { .. } => refused(r, "UnauthorizeGuest"@),
        Command::ArchiveAlarm { id } => on_legacy(
            r,
            b,
            |c: LegacyCall| c matches LegacyCall::ArchiveAlarm { id: t } && t@ == id_text(id@),
        ),
        Command::ArchiveAllAlarms => refused(r, "ArchiveAllAlarms"@),
        Command::CreateBackup => on_legacy(r, b, |c: LegacyCall| c is CreateBackup),
        Command::DeleteBackup { .. } => refused(r, "DeleteBackup"@),
        Command::CreateNetwork(req) => on_integration(
            r,
            b,
            "CreateNetwork"@,
            |c: IntegrationCall|
                c matches IntegrationCall::CreateNetwork(body) && body.name@ == req.name@ && body.enabled
                    == req.enabled && body.management@ == "USER_DEFINED"@ && body.vlan_id == (match req.vlan_id {
                    Some(v) => v as i32,
                    None => 1i32,
                }) && body.dhcp_guarding is None,
        ),
        Command::UpdateNetwork { id, update } => on_uuid(
            r,
            b,
            "UpdateNetwork"@,
            id@,
            |u: u128, c: IntegrationCall|
                c matches IntegrationCall::UpdateNetwork { network, update: up } && network == u && up
                    == update,
        ),
        Command::DeleteNetwork { id, .. } => on_uuid(
            r,
            b,
            "DeleteNetwork"@,
            id@,
            |u: u128, c: IntegrationCall| c matches IntegrationCall::DeleteNetwork { network } && network == u,
        ),
        Command::CreateWifiBroadcast(req) => on_integration(
            r,
            b,
            "CreateWifiBroadcast"@,
            |c: IntegrationCall|
                c matches IntegrationCall::CreateWifiBroadcast { name, broadcast_type, enabled, passphrase }
                    && name@ == req.name@ && broadcast_type@ == "STANDARD"@ && enabled == req.enabled
                    && opt_text(passphrase) == opt_text(req.passphrase),
        ),
        Command::UpdateWifiBroadcast { id, .. } => refused_update(
            r,
            b,
            "UpdateWifiBroadcast"@,
            id@,
            "UpdateWifiBroadcast (partial update not yet implemented)"@,
        ),
        Command::DeleteWifiBroadcast { id, .. } => on_uuid(
            r,
            b,
            "DeleteWifiBroadcast"@,
            id@,
            |u: u128, c: IntegrationCall|
                c matches IntegrationCall::DeleteWifiBroadcast { broadcast } && broadcast == u,
        ),
        Command::CreateFirewallPolicy(req) => on_integration(
            r,
            b,
            "CreateFirewallPolicy"@,
            |c: IntegrationCall|
                c matches IntegrationCall::CreateFirewallPolicy {
                    name,
                    description,
                    enabled,
                    action,
                    source_zone,
                    destination_zone,
                    logging_enabled,
                } && name@ == req.name@ && opt_text(description) == opt_text(req.description)
                    && enabled == req.enabled && action@ == policy_action_text(req.action)
                    && source_zone@ == id_text(req.source_zone_id@) && destination_zone@ == id_text(
                    req.destination_zone_id@,
                ) && logging_enabled == req.logging_enabled,
        ),
        Command::UpdateFirewallPolicy { id, .. } => refused_update(
            r,
            b,
            "UpdateFirewallPolicy"@,
            id@,
            "UpdateFirewallPolicy (partial update not yet implemented)"@,
        ),
        Command::DeleteFirewallPolicy { id } => on_uuid(
            r,
            b,
            "DeleteFirewallPolicy"@,
            id@,
            |u: u128, c: IntegrationCall| c matches IntegrationCall::DeleteFirewallPolicy { policy } && policy == u,
        ),
        Command::PatchFirewallPolicy { id, enabled } => on_uuid(
            r,
            b,
            "PatchFirewallPolicy"@,
            id@,
            |u: u128, c: IntegrationCall|
                c matches IntegrationCall::PatchFirewallPolicy { policy, enabled: e } && policy == u
                    && e == enabled,
        ),
        Command::ReorderFirewallPolicies { ordered_ids, .. } => if !integration_ready(b) {
            refused(r, "ReorderFirewallPolicies"@)
        } else {
            match all_uuids(ids_view(ordered_ids@)) {
                Some(us) => on_site(r, b) && (integration_call(r).unwrap() matches IntegrationCall::SetFirewallPolicyOrdering {
                    before_system_defined,
                } && before_system_defined@ == us),
                None => refused_legacy_id(r),
            }
        },
        Command::CreateFirewallZone(req) => if !integration_ready(b) {
            refused(r, "CreateFirewallZone"@)
        } else {
            match all_uuids(ids_view(req.network_ids@)) {
                Some(us) => on_site(r, b) && (integration_call(r).unwrap() matches IntegrationCall::CreateFirewallZone {
                    name,
                    network_ids,
                } && name@ == req.name@ && network_ids@ == us),
                None => refused_legacy_id(r),
            }
        },
        Command::UpdateFirewallZone { id, update } => on_uuid(
            r,
            b,
            "UpdateFirewallZone"@,
            id@,
            |u: u128, c: IntegrationCall|
                c matches IntegrationCall::UpdateFirewallZone { zone, update: up } && zone == u && up
                    == update,
        ),
        Command::DeleteFirewallZone { id } => on_uuid(
            r,
            b,
            "DeleteFirewallZone"@,
            id@,
            |u: u128, c: IntegrationCall| c matches IntegrationCall::DeleteFirewallZone { zone } && zone == u,
        ),
        Command::CreateAclRule(req) => on_integration(
            r,
            b,
            "CreateAclRule"@,
            |c: IntegrationCall|
                c matches IntegrationCall::CreateAclRule { name, rule_type, action, enabled } && name@
                    == req.name@ && rule_type@ == "DEVICE"@ && action@ == acl_action_text(req.action)
                    && enabled == req.enabled,
        ),
        Command::UpdateAclRule { id, update } => on_uuid(
            r,
            b,
            "UpdateAclRule"@,
            id@,
            |u: u128, c: IntegrationCall|
                c matches IntegrationCall::UpdateAclRule { rule, update: up } && rule == u && up == update,
        ),
        Command::DeleteAclRule { id } => on_uuid(
            r,
            b,
            "DeleteAclRule"@,
            id@,
            |u: u128, c: IntegrationCall| c matches IntegrationCall::DeleteAclRule { rule } && rule == u,
        ),
        Command::ReorderAclRules { ordered_ids } => if !integration_ready(b) {
            refused(r, "ReorderAclRules"@)
        } else {
            match all_uuids(ids_view(ordered_ids@)) {
                Some(us) => on_site(r, b) && (integration_call(r).unwrap() matches IntegrationCall::SetAclRuleOrdering {
                    ordered_acl_rule_ids,
                } && ordered_acl_rule_ids@ == us),
                None => refused_legacy_id(r),
            }
        },
        Command::CreateDnsPolicy(req) => on_integration(
            r,
            b,
            "CreateDnsPolicy"@,
            |c: IntegrationCall|
                c matches IntegrationCall::CreateDnsPolicy { policy_type, enabled } && policy_type@
                    == dns_type_text(req.policy_type) && enabled == req.enabled,
        ),
        Command::UpdateDnsPolicy { id, .. } => refused_update(
            r,
            b,
            "UpdateDnsPolicy"@,
            id@,
            "UpdateDnsPolicy (partial update not yet implemented)"@,
        ),
        Command::DeleteDnsPolicy { id } => on_uuid(
            r,
            b,
            "DeleteDnsPolicy"@,
            id@,
            |u: u128, c: IntegrationCall| c matches IntegrationCall::DeleteDnsPolicy { policy } && policy == u,
        ),
        Command::CreateTrafficMatchingList(req) => on_integration(
            r,
            b,
            "CreateTrafficMatchingList"@,
            |c: IntegrationCall|
                c matches IntegrationCall::CreateTrafficMatchingList { name, list_type, entries, description }
                    && name@ == req.name@ && list_type@ == "IPV4"@ && entries == req.entries
                    && opt_text(description) == opt_text(req.description),
        ),
        Command::UpdateTrafficMatchingList { id, update } => on_uuid(
            r,
            b,
            "UpdateTrafficMatchingList"@,
            id@,
            |u: u128, c: IntegrationCall|
                c matches IntegrationCall::UpdateTrafficMatchingList { list, update: up } && list == u
                    && up == update,
        ),
        Command::DeleteTrafficMatchingList { id } => on_uuid(
            r,
            b,
            "DeleteTrafficMatchingList"@,
            id@,
            |u: u128, c: IntegrationCall|
                c matches IntegrationCall::DeleteTrafficMatchingList { list } && list == u,
        ),
        Command::CreateVouchers(req) => on_integration(
            r,
            b,
            "CreateVouchers"@,
            |c: IntegrationCall|
                c matches IntegrationCall::CreateVouchers(body) && voucher_body_fits(body, req),
        ),
        Command::DeleteVoucher { id } => on_uuid(
            r,
            b,
            "DeleteVoucher"@,
            id@,
            |u: u128, c: IntegrationCall| c matches IntegrationCall::DeleteVoucher { voucher } && voucher == u,
        ),
        Command::PurgeVouchers { filter } => on_integration(
            r,
            b,
            "PurgeVouchers"@,
            |c: IntegrationCall| c matches IntegrationCall::PurgeVouchers { filter: f } && f@ == filter@,
        ),
        Command::CreateSite { .. }
        | Command::DeleteSite { .. }
        | Command::InviteAdmin { .. }
        | Command::RevokeAdmin { .. }
        | Command::UpdateAdmin { .. } => refused(r, "system administration"@),
        Command::RebootController | Command::PoweroffController => refused(
            r,
            "controller power management"@,
        ),
    }
}

/// The voucher body for a request: named "Voucher" unless named, one hour
/// unless limited otherwise, the limits carried over as the API's integer
/// types.
pub open spec fn voucher_body_fits(body: VoucherBody, req: CreateVouchersRequest) -> bool {
    &&& body.name@ == match opt_text(req.name) {
        Some(n) => n,
        None => "Voucher"@,
    }
    &&& body.count == Some(req.count as i32)
    &&& body.time_limit_minutes == (match req.time_limit_minutes {
        Some(m) => m as i64,
        None => 60i64,
    })
    &&& body.authorized_guest_limit == match req.authorized_guest_limit {
        Some(l) => Some(l as i64),
        None => None,
    }
    &&& body.data_usage_limit_mbytes == match req.data_usage_limit_mb {
        Some(l) => Some(l as i64),
        None => None,
    }
    &&& body.rx_rate_limit_kbps == match req.rx_rate_limit_kbps {
        Some(l) => Some(l as i64),
        None => None,
    }
    &&& body.tx_rate_limit_kbps == match req.tx_rate_limit_kbps {
        Some(l) => Some(l as i64),
        None => None,
    }
}

// ── Routing ─────────────────────────────────────────────────────────

/// The site to use for an Integration API call, or the refusal of
/// operation `op` when that API is not available.
fn integration_site(b: Backends, op: &str) -> (r: Result<u128, CoreError>)
    ensures
        integration_ready(b) ==> r == Ok::<u128, CoreError>(b.site_id.unwrap()),
        !integration_ready(b) ==> (r matches Err(e) && is_unsupported(e, op@)),
{
    match b.site_id {
        Some(sid) => if b.integration {
            Ok(sid)
        } else {
            Err(unsupported(op))
        },
        None => Err(unsupported(op)),
    }
}

fn on(site: u128, call: IntegrationCall) -> (r: Result<Route, CoreError>)
    ensures
        r matches Ok(Route::Integration { site: s, call: c }) && s == site && c == call,
{
    Ok(Route::Integration { site, call })
}

fn legacy(call: LegacyCall) -> (r: Result<Route, CoreError>)
    ensures
        r matches Ok(Route::Legacy(c)) && c == call,
{
    Ok(Route::Legacy(call))
}

/// Decides where a command goes and with which arguments (see
/// `route_fits`): the Integration API when the connection has it and the
/// command is available there, the legacy API for the operations only it
/// offers, or an error: the operation is not available, an id is not a
/// UUID, a device or client is not in the store, or the legacy client is
/// missing.
#[verifier::rlimit(60)]
pub fn route_command(cmd: Command, b: Backends, store: &DataStore) -> (r: Result<Route, CoreError>)
    requires
        store.wf(),
    ensures
        route_fits(r, cmd, b, *store),
{
    let ready = b.integration && b.site_id.is_some();
    match cmd {
        Command::AdoptDevice { mac } => {
            if ready {
                let sid = b.site_id.unwrap();
                on(sid, IntegrationCall::AdoptDevice { mac })
            } else if !b.legacy {
                Err(CoreError::ControllerDisconnected)
            } else {
                legacy(LegacyCall::AdoptDevice { mac })
            }
        },
        Command::RestartDevice { id } => {
            if ready {
                let sid = b.site_id.unwrap();
                let u = require_uuid(&id)?;
                on(sid, IntegrationCall::DeviceAction { device: u, action: owned("RESTART") })
            } else if !b.legacy {
                Err(CoreError::ControllerDisconnected)
            } else {
                let mac = crate::controller::device_mac(store, &id)?;
                legacy(LegacyCall::RestartDevice { mac })
            }
        },
        Command::LocateDevice { mac, enable } => {
            if ready {
                let sid = b.site_id.unwrap();
                match store.device_by_mac(&mac) {
                    None => Err(CoreError::DeviceNotFound { identifier: mac.to_string() }),
                    Some(d) => {
                        let u = require_uuid(&d.id)?;
                        let action = if enable {
                            owned("LOCATE_ON")
                        } else {
                            owned("LOCATE_OFF")
                        };
                        on(sid, IntegrationCall::DeviceAction { device: u, action })
                    },
                }
            } else if !b.legacy {
                Err(CoreError::ControllerDisconnected)
            } else {
                legacy(LegacyCall::LocateDevice { mac, enable })
            }
        },
        Command::UpgradeDevice { mac, firmware_url } => {
            if !b.legacy {
                return Err(CoreError::ControllerDisconnected);
            }
            legacy(LegacyCall::UpgradeDevice { mac, firmware_url })
        },
        Command::RemoveDevice { id } => {
            let sid = integration_site(b, "RemoveDevice")?;
            let u = require_uuid(&id)?;
            on(sid, IntegrationCall::RemoveDevice { device: u })
        },
        Command::ProvisionDevice { .. } => Err(unsupported("ProvisionDevice")),
        Command::SpeedtestDevice => Err(unsupported("SpeedtestDevice")),
        Command::PowerCyclePort { device_id, port_idx } => {
            let sid = integration_site(b, "PowerCyclePort")?;
            let u = require_uuid(&device_id)?;
            on(
                sid,
                IntegrationCall::PortAction { device: u, port_idx, action: owned("POWER_CYCLE") },
            )
        },
        Command::BlockClient { mac } => {
            if ready {
                let sid = b.site_id.unwrap();
                route_client_action(sid, store, &mac, owned("BLOCK"))
            } else if !b.legacy {
                Err(CoreError::ControllerDisconnected)
            } else {
                legacy(LegacyCall::BlockClient { mac })
            }
        },
        Command::UnblockClient { mac } => {
            if ready {
                let sid = b.site_id.unwrap();
                route_client_action(sid, store, &mac, owned("UNBLOCK"))
            } else if !b.legacy {
                Err(CoreError::ControllerDisconnected)
            } else {
                legacy(LegacyCall::UnblockClient { mac })
            }
        },
        Command::KickClient { mac } => {
            if ready {
                let sid = b.site_id.unwrap();
                route_client_action(sid, store, &mac, owned("RECONNECT"))
            } else if !b.legacy {
                Err(CoreError::ControllerDisconnected)
            } else {
                legacy(LegacyCall::KickClient { mac })
            }
        },
        Command::ForgetClient { mac } => {
            if !b.legacy {
                return Err(CoreError::ControllerDisconnected);
            }
            legacy(LegacyCall::ForgetClient { mac })
        },
        Command::AuthorizeGuest {
            client_id,
            time_limit_minutes,
            data_limit_mb,
            rx_rate_kbps,
            tx_rate_kbps,
        } => {
            if !b.legacy {
                return Err(CoreError::ControllerDisconnected);
            }
            let mac = crate::controller::client_mac(store, &client_id)?;
            let minutes: u32 = match time_limit_minutes {
                Some(m) => m,
                None => 60,
            };
            let tx: Option<u32> = match tx_rate_kbps {
                Some(t) => Some(t as u32),
                None => None,
            };
            let rx: Option<u32> = match rx_rate_kbps {
                Some(t) => Some(t as u32),
                None => None,
            };
            let data: Option<u32> = match data_limit_mb {
                Some(t) => Some(t as u32),
                None => None,
            };
            legacy(
                LegacyCall::AuthorizeGuest {
                    mac,
                    minutes,
                    tx_rate_kbps: tx,
                    rx_rate_kbps: rx,
                    data_limit_mb: data,
                },
            )
        },
        Command::UnauthorizeGuest { .. } => Err(unsupported("UnauthorizeGuest")),
        Command::ArchiveAlarm { id } => {
            if !b.legacy {
                return Err(CoreError::ControllerDisconnected);
            }
            legacy(LegacyCall::ArchiveAlarm { id: id.to_string() })
        },
        Command::ArchiveAllAlarms => Err(unsupported("ArchiveAllAlarms")),
        Command::CreateBackup => {
            if !b.legacy {
                return Err(CoreError::ControllerDisconnected);
            }
            legacy(LegacyCall::CreateBackup)
        },
        Command::DeleteBackup { .. } => Err(unsupported("DeleteBackup")),
        Command::CreateNetwork(req) => {
            let sid = integration_site(b, "CreateNetwork")?;
            let vlan_id: i32 = match req.vlan_id {
                Some(v) => v as i32,
                None => 1,
            };
            let body = NetworkBody {
                name: req.name,
                enabled: req.enabled,
                management: owned("USER_DEFINED"),
                vlan_id,
                dhcp_guarding: None,
            };
            on(sid, IntegrationCall::CreateNetwork(body))
        },
        Command::UpdateNetwork { id, update } => {
            let sid = integration_site(b, "UpdateNetwork")?;
            let u = require_uuid(&id)?;
            on(sid, IntegrationCall::UpdateNetwork { network: u, update })
        },
        Command::DeleteNetwork { id, .. } => {
            let sid = integration_site(b, "DeleteNetwork")?;
            let u = require_uuid(&id)?;
            on(sid, IntegrationCall::DeleteNetwork { network: u })
        },
        Command::CreateWifiBroadcast(req) => {
            let sid = integration_site(b, "CreateWifiBroadcast")?;
            on(
                sid,
                IntegrationCall::CreateWifiBroadcast {
                    name: req.name,
                    broadcast_type: owned("STANDARD"),
                    enabled: req.enabled,
                    passphrase: req.passphrase,
                },
            )
        },
        Command::UpdateWifiBroadcast { id, .. } => {
            let _sid = integration_site(b, "UpdateWifiBroadcast")?;
            let _u = require_uuid(&id)?;
            Err(unsupported("UpdateWifiBroadcast (partial update not yet implemented)"))
        },
        Command::DeleteWifiBroadcast { id, .. } => {
            let sid = integration_site(b, "DeleteWifiBroadcast")?;
            let u = require_uuid(&id)?;
            on(sid, IntegrationCall::DeleteWifiBroadcast { broadcast: u })
        },
        Command::CreateFirewallPolicy(req) => {
            let sid = integration_site(b, "CreateFirewallPolicy")?;
            let action = policy_action_name(req.action);
            let source_zone = req.source_zone_id.to_string();
            let destination_zone = req.destination_zone_id.to_string();
            on(
                sid,
                IntegrationCall::CreateFirewallPolicy {
                    name: req.name,
                    description: req.description,
                    enabled: req.enabled,
                    action,
                    source_zone,
                    destination_zone,
                    logging_enabled: req.logging_enabled,
                },
            )
        },
        Command::UpdateFirewallPolicy { id, .. } => {
            let _sid = integration_site(b, "UpdateFirewallPolicy")?;
            let _u = require_uuid(&id)?;
            Err(unsupported("UpdateFirewallPolicy (partial update not yet implemented)"))
        },
        Command::DeleteFirewallPolicy { id } => {
            let sid = integration_site(b, "DeleteFirewallPolicy")?;
            let u = require_uuid(&id)?;
            on(sid, IntegrationCall::DeleteFirewallPolicy { policy: u })
        },
        Command::PatchFirewallPolicy { id, enabled } => {
            let sid = integration_site(b, "PatchFirewallPolicy")?;
            let u = require_uuid(&id)?;
            on(sid, IntegrationCall::PatchFirewallPolicy { policy: u, enabled })
        },
        Command::ReorderFirewallPolicies { ordered_ids, .. } => {
            let sid = integration_site(b, "ReorderFirewallPolicies")?;
            let us = require_uuids(&ordered_ids)?;
            on(sid, IntegrationCall::SetFirewallPolicyOrdering { before_system_defined: us })
        },
        Command::CreateFirewallZone(req) => {
            let sid = integration_site(b, "CreateFirewallZone")?;
            let us = require_uuids(&req.network_ids)?;
            on(sid, IntegrationCall::CreateFirewallZone { name: req.name, network_ids: us })
        },
        Command::UpdateFirewallZone { id, update } => {
            let sid = integration_site(b, "UpdateFirewallZone")?;
            let u = require_uuid(&id)?;
            on(sid, IntegrationCall::UpdateFirewallZone { zone: u, update })
        },
        Command::DeleteFirewallZone { id } => {
            let sid = integration_site(b, "DeleteFirewallZone")?;
            let u = require_uuid(&id)?;
            on(sid, IntegrationCall::DeleteFirewallZone { zone: u })
        },
        Command::CreateAclRule(req) => {
            let sid = integration_site(b, "CreateAclRule")?;
            let action = acl_action_name(req.action);
            on(
                sid,
                IntegrationCall::CreateAclRule {
                    name: req.name,
                    rule_type: owned("DEVICE"),
                    action,
                    enabled: req.enabled,
                },
            )
        },
        Command::UpdateAclRule { id, update } => {
            let sid = integration_site(b, "UpdateAclRule")?;
            let u = require_uuid(&id)?;
            on(sid, IntegrationCall::UpdateAclRule { rule: u, update })
        },
        Command::DeleteAclRule { id } => {
            let sid = integration_site(b, "DeleteAclRule")?;
            let u = require_uuid(&id)?;
            on(sid, IntegrationCall::DeleteAclRule { rule: u })
        },
        Command::ReorderAclRules { ordered_ids } => {
            let sid = integration_site(b, "ReorderAclRules")?;
            let us = require_uuids(&ordered_ids)?;
            on(sid, IntegrationCall::SetAclRuleOrdering { ordered_acl_rule_ids: us })
        },
        Command::CreateDnsPolicy(req) => {
            let sid = integration_site(b, "CreateDnsPolicy")?;
            let policy_type = dns_type_name(req.policy_type);
            on(sid, IntegrationCall::CreateDnsPolicy { policy_type, enabled: req.enabled })
        },
        Command::UpdateDnsPolicy { id, .. } => {
            let _sid = integration_site(b, "UpdateDnsPolicy")?;
            let _u = require_uuid(&id)?;
            Err(unsupported("UpdateDnsPolicy (partial update not yet implemented)"))
        },
        Command::DeleteDnsPolicy { id } => {
            let sid = integration_site(b, "DeleteDnsPolicy")?;
            let u = require_uuid(&id)?;
            on(sid, IntegrationCall::DeleteDnsPolicy { policy: u })
        },
        Command::CreateTrafficMatchingList(req) => {
            let sid = integration_site(b, "CreateTrafficMatchingList")?;
            on(
                sid,
                IntegrationCall::CreateTrafficMatchingList {
                    name: req.name,
                    list_type: owned("IPV4"),
                    entries: req.entries,
                    description: req.description,
                },
            )
        },
        Command::UpdateTrafficMatchingList { id, update } => {
            let sid = integration_site(b, "UpdateTrafficMatchingList")?;
            let u = require_uuid(&id)?;
            on(sid, IntegrationCall::UpdateTrafficMatchingList { list: u, update })
        },
        Command::DeleteTrafficMatchingList { id } => {
            let sid = integration_site(b, "DeleteTrafficMatchingList")?;
            let u = require_uuid(&id)?;
            on(sid, IntegrationCall::DeleteTrafficMatchingList { list: u })
        },
        Command::CreateVouchers(req) => {
            let sid = integration_site(b, "CreateVouchers")?;
            let body = voucher_body(req);
            on(sid, IntegrationCall::CreateVouchers(body))
        },
        Command::DeleteVoucher { id } => {
            let sid = integration_site(b, "DeleteVoucher")?;
            let u = require_uuid(&id)?;
            on(sid, IntegrationCall::DeleteVoucher { voucher: u })
        },
        Command::PurgeVouchers { filter } => {
            let sid = integration_site(b, "PurgeVouchers")?;
            on(sid, IntegrationCall::PurgeVouchers { filter })
        },
        Command::CreateSite { .. }
        | Command::DeleteSite { .. }
        | Command::InviteAdmin { .. }
        | Command::RevokeAdmin { .. }
        | Command::UpdateAdmin { .. } => Err(unsupported("system administration")),
        Command::RebootController | Command::PoweroffController => Err(
            unsupported("controller power management"),
        ),
    }
}

/// A client action through the Integration API on the client with MAC
/// `mac`, which must be in the store and have a UUID.
fn route_client_action(sid: u128, store: &DataStore, mac: &MacAddress, action: String) -> (r: Result<
    Route,
    CoreError,
>)
    requires
        store.wf(),
    ensures
        !store.clients.by_key().dom().contains(mac@) ==> (r matches Err(
            CoreError::ClientNotFound { identifier },
        ) && identifier@ == mac@),
        store.clients.by_key().dom().contains(mac@) ==> match store.clients.by_key()[mac@].id@ {
            EntityIdView::Uuid(u) => (r matches Ok(Route::Integration { site, call }) && site == sid
                && client_action(call, u, action@)),
            EntityIdView::Legacy(_) => refused_legacy_id(r),
        },
{
    match store.client_by_mac(mac) {
        None => Err(CoreError::ClientNotFound { identifier: mac.to_string() }),
        Some(c) => {
            let u = require_uuid(&c.id)?;
            on(sid, IntegrationCall::ClientAction { client: u, action })
        },
    }
}

/// The voucher body for a creation request (see `voucher_body_fits`).
pub fn voucher_body(req: CreateVouchersRequest) -> (body: VoucherBody)
    ensures
        voucher_body_fits(body, req),
{
    let name = match req.name {
        Some(n) => n,
        None => owned("Voucher"),
    };
    let time_limit_minutes: i64 = match req.time_limit_minutes {
        Some(m) => m as i64,
        None => 60,
    };
    VoucherBody {
        name,
        count: Some(req.count as i32),
        time_limit_minutes,
        authorized_guest_limit: match req.authorized_guest_limit {
            Some(l) => Some(l as i64),
            None => None,
        },
        data_usage_limit_mbytes: match req.data_usage_limit_mb {
            Some(l) => Some(l as i64),
            None => None,
        },
        rx_rate_limit_kbps: match req.rx_rate_limit_kbps {
            Some(l) => Some(l as i64),
            None => None,
        },
        tx_rate_limit_kbps: match req.tx_rate_limit_kbps {
            Some(l) => Some(l as i64),
            None => None,
        },
    }
}

// ── Merging partial updates into fetched entities ───────────────────

/// A network update merged into the network's current body: the fields
/// the update sets win, the management mode and DHCP guarding are kept.
pub open spec fn network_merged(m: NetworkBody, update: UpdateNetworkRequest, existing: NetworkBody) -> bool {
    &&& m.name@ == match opt_text(update.name) {
        Some(n) => n,
        None => existing.name@,
    }
    &&& m.enabled == match update.enabled {
        Some(e) => e,
        None => existing.enabled,
    }
    &&& m.management@ == existing.management@
    &&& m.vlan_id == match update.vlan_id {
        Some(v) => v as i32,
        None => existing.vlan_id,
    }
    &&& m.dhcp_guarding == existing.dhcp_guarding
}

/// Merges a network update into the network's current body.
pub fn merge_network_update(update: UpdateNetworkRequest, existing: NetworkBody) -> (m: NetworkBody)
    ensures
        network_merged(m, update, existing),
{
    NetworkBody {
        name: match update.name {
            Some(n) => n,
            None => existing.name,
        },
        enabled: match update.enabled {
            Some(e) => e,
            None => existing.enabled,
        },
        management: existing.management,
        vlan_id: match update.vlan_id {
            Some(v) => v as i32,
            None => existing.vlan_id,
        },
        dhcp_guarding: existing.dhcp_guarding,
    }
}

/// Body of a firewall zone write.
#[derive(Debug, Clone)]
pub struct ZoneBody {
    pub name: String,
    pub network_ids: Vec<u128>,
}

/// Merges a zone update into the zone's current body: a new name or
/// network list wins; the new list must name networks by UUID.
pub fn merge_zone_update(update: UpdateFirewallZoneRequest, existing: ZoneBody) -> (r: Result<
    ZoneBody,
    CoreError,
>)
    ensures
        match update.network_ids {
            Some(ids) => match all_uuids(ids_view(ids@)) {
                Some(us) => r matches Ok(z) && z.network_ids@ == us && z.name@ == match opt_text(
                    update.name,
                ) {
                    Some(n) => n,
                    None => existing.name@,
                },
                None => r matches Err(e) && is_legacy_id_error(e),
            },
            None => r matches Ok(z) && z.network_ids@ == existing.network_ids@ && z.name@
                == match opt_text(update.name) {
                Some(n) => n,
                None => existing.name@,
            },
        },
{
    let network_ids = match update.network_ids {
        Some(ids) => require_uuids(&ids)?,
        None => existing.network_ids,
    };
    let name = match update.name {
        Some(n) => n,
        None => existing.name,
    };
    Ok(ZoneBody { name, network_ids })
}

/// Body of an ACL rule write (the filters the rule has are kept as they
/// are by whoever writes it back).
#[derive(Debug, Clone)]
pub struct AclBody {
    pub name: String,
    pub rule_type: String,
    pub action: String,
    pub enabled: bool,
}

/// An ACL rule update merged into the rule's current body: a new name,
/// action (in the API's words) or enabled flag wins, the rule type is
/// kept.
pub open spec fn acl_merged(m: AclBody, update: UpdateAclRuleRequest, existing: AclBody) -> bool {
    &&& m.name@ == match opt_text(update.name) {
        Some(n) => n,
        None => existing.name@,
    }
    &&& m.rule_type@ == existing.rule_type@
    &&& m.action@ == match update.action {
        Some(a) => acl_action_text(a),
        None => existing.action@,
    }
    &&& m.enabled == match update.enabled {
        Some(e) => e,
        None => existing.enabled,
    }
}

/// Merges an ACL rule update into the rule's current body.
pub fn merge_acl_update(update: UpdateAclRuleRequest, existing: AclBody) -> (m: AclBody)
    ensures
        acl_merged(m, update, existing),
{
    AclBody {
        name: match update.name {
            Some(n) => n,
            None => existing.name,
        },
        rule_type: existing.rule_type,
        action: match update.action {
            Some(a) => acl_action_name(a),
            None => existing.action,
        },
        enabled: match update.enabled {
            Some(e) => e,
            None => existing.enabled,
        },
    }
}

/// The entries a traffic matching list is written back with.
#[derive(Debug)]
pub enum EntriesUpdate<J> {
    /// The update's new entries.
    Replace(Vec<String>),
    /// The list's current entries, as fetched.
    Keep(J),
    /// No entries (neither the update nor the list has any).
    Empty,
}

/// The description a traffic matching list is written back with.
#[derive(Debug)]
pub enum DescriptionUpdate<J> {
    Replace(String),
    Keep(J),
    /// Written without a description.
    Omit,
}

/// A traffic matching list update merged into the list's current name,
/// entries and description: whatever the update sets wins, the rest is
/// kept.
pub fn merge_list_update<J>(
    update: UpdateTrafficMatchingListRequest,
    existing_name: String,
    existing_entries: Option<J>,
    existing_description: Option<J>,
) -> (m: (String, EntriesUpdate<J>, DescriptionUpdate<J>))
    ensures
        m.0@ == match opt_text(update.name) {
            Some(n) => n,
            None => existing_name@,
        },
        match update.entries {
            Some(e) => m.1 matches EntriesUpdate::Replace(v) && v == e,
            None => match existing_entries {
                Some(j) => m.1 == EntriesUpdate::Keep(j),
                None => m.1 is Empty,
            },
        },
        match update.description {
            Some(d) => m.2 matches DescriptionUpdate::Replace(t) && t@ == d@,
            None => match existing_description {
                Some(j) => m.2 == DescriptionUpdate::Keep(j),
                None => m.2 is Omit,
            },
        },
{
    let name = match update.name {
        Some(n) => n,
        None => existing_name,
    };
    let entries = match update.entries {
        Some(e) => EntriesUpdate::Replace(e),
        None => match existing_entries {
            Some(j) => EntriesUpdate::Keep(j),
            None => EntriesUpdate::Empty,
        },
    };
    let description = match update.description {
        Some(d) => DescriptionUpdate::Replace(d),
        None => match existing_description {
            Some(j) => DescriptionUpdate::Keep(j),
            None => DescriptionUpdate::Omit,
        },
    };
    (name, entries, description)
}

/// The Integration API is preferred: a command both APIs can carry goes
/// to the Integration API whenever the connection has it (or fails for a
/// reason of its own), and to the legacy API only otherwise. A route to
/// the Integration API always names the connection's site, and a route to
/// the legacy API needs the legacy client.
pub proof fn lemma_integration_preferred(r: Result<Route, CoreError>, cmd: Command, b: Backends, store: DataStore)
    requires
        route_fits(r, cmd, b, store),
    ensures
        r matches Ok(Route::Integration { site, call: _ }) ==> b.site_id == Some(site) && b.integration,
        r matches Ok(Route::Legacy(_)) ==> b.legacy,
        integration_ready(b) && (cmd is AdoptDevice || cmd is RestartDevice || cmd is LocateDevice
            || cmd is BlockClient || cmd is UnblockClient || cmd is KickClient) ==> !(r matches Ok(
            Route::Legacy(_),
        )),
        !integration_ready(b) ==> !(r matches Ok(Route::Integration { .. })),
{
}

} // verus!
