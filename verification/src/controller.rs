//! Controller-side decisions that need no network: connection states,
//! errors, TLS settings, and the resolution of ids a command names.

use vstd::prelude::*;

use crate::entity_id::{id_text, parse_uuid, uuid_parse, EntityId, EntityIdView, MacAddress};
use crate::integration::SiteResponse;
use crate::model::{
    AclRule, Client, Device, DnsPolicy, Event, FirewallPolicy, FirewallZone, Network, Site,
    TrafficMatchingList, Voucher, WifiBroadcast,
};
use crate::store::{DataStore, RefreshSnapshot};
use crate::platform::ControllerPlatform;
use crate::text::{owned, str_eq};
use crate::urls::{websocket_address, websocket_path_spec, websocket_url};

verus! {

/// State of the connection to the controller.
#[derive(Debug, Clone, Copy, PartialEq, Eq, Structural)]
pub enum ConnectionState {
    Disconnected,
    Connecting,
    Connected,
    Reconnecting { attempt: u32 },
    Failed,
}

/// Errors of the core.
#[derive(Debug)]
pub enum CoreError {
    /// No client for the API the operation needs.
    ControllerDisconnected,
    DeviceNotFound { identifier: String },
    ClientNotFound { identifier: String },
    SiteNotFound { name: String },
    /// The operation needs something the connection does not offer.
    Unsupported { operation: String, required: String },
}

/// `e` is the error for an operation that needs the Integration API.
pub open spec fn is_unsupported(e: CoreError, operation: Seq<char>) -> bool {
    e matches CoreError::Unsupported { operation: o, required: r } && o@ == operation && r@
        == "Integration API"@
}

/// `e` is the error for an Integration API operation on a legacy id.
pub open spec fn is_legacy_id_error(e: CoreError) -> bool {
    e matches CoreError::Unsupported { operation: o, required: r } && o@
        == "Integration API operation on legacy ID"@ && r@ == "UUID-based entity ID"@
}

/// The error for an operation that needs the Integration API.
pub fn unsupported(operation: &str) -> (e: CoreError)
    ensures
        is_unsupported(e, operation@),
{
    CoreError::Unsupported { operation: owned(operation), required: owned("Integration API") }
}

/// The UUID of an id; legacy ids are refused.
pub fn require_uuid(id: &EntityId) -> (r: Result<u128, CoreError>)
    ensures
        match id@ {
            EntityIdView::Uuid(u) => r == Ok::<u128, CoreError>(u),
            EntityIdView::Legacy(_) => r matches Err(e) && is_legacy_id_error(e),
        },
{
    match id {
        EntityId::Uuid(u) => Ok(*u),
        EntityId::Legacy(_) => Err(
            CoreError::Unsupported {
                operation: owned("Integration API operation on legacy ID"),
                required: owned("UUID-based entity ID"),
            },
        ),
    }
}

/// The UUIDs of all the ids, in order, if each has one.
pub open spec fn all_uuids(ids: Seq<EntityIdView>) -> Option<Seq<u128>>
    decreases ids.len(),
{
    if ids.len() == 0 {
        Some(Seq::<u128>::empty())
    } else {
        match (all_uuids(ids.drop_last()), ids.last()) {
            (Some(us), EntityIdView::Uuid(u)) => Some(us.push(u)),
            _ => None,
        }
    }
}

/// The views of a list of ids.
pub open spec fn ids_view(ids: Seq<EntityId>) -> Seq<EntityIdView> {
    ids.map_values(|id: EntityId| id@)
}

proof fn lemma_all_uuids_prefix_fails(ids: Seq<EntityIdView>, i: int)
    requires
        0 <= i <= ids.len(),
        all_uuids(ids.subrange(0, i)) is None,
    ensures
        all_uuids(ids) is None,
    decreases ids.len() - i,
{
    if i < ids.len() {
        let next = ids.subrange(0, i + 1);
        assert(next.drop_last() =~= ids.subrange(0, i));
        lemma_all_uuids_prefix_fails(ids, i + 1);
    } else {
        assert(ids.subrange(0, i) =~= ids);
    }
}

/// The UUIDs of all the ids, in order; the first legacy id refuses the
/// whole list.
pub fn require_uuids(ids: &Vec<EntityId>) -> (r: Result<Vec<u128>, CoreError>)
    ensures
        match all_uuids(ids_view(ids@)) {
            Some(us) => r matches Ok(v) && v@ == us,
            None => r matches Err(e) && is_legacy_id_error(e),
        },
{
    let ghost view = ids_view(ids@);
    let mut out: Vec<u128> = Vec::new();
    let mut i: usize = 0;
    while i < ids.len()
        invariant
            i <= ids@.len(),
            view == ids_view(ids@),
            all_uuids(view.subrange(0, i as int)) == Some(out@),
        decreases ids.len() - i,
    {
        let ghost pre = view.subrange(0, i as int);
        assert(view.subrange(0, i + 1).drop_last() =~= pre);
        assert(view.subrange(0, i + 1).last() == ids@[i as int]@);
        match require_uuid(&ids[i]) {
            Ok(u) => out.push(u),
            Err(e) => {
                proof {
                    lemma_all_uuids_prefix_fails(view, i + 1);
                }
                return Err(e);
            },
        }
        i = i + 1;
    }
    assert(view.subrange(0, ids@.len() as int) =~= view);
    Ok(out)
}

/// The MAC of the device the store indexes under `id`.
pub fn device_mac(store: &DataStore, id: &EntityId) -> (r: Result<MacAddress, CoreError>)
    requires
        store.wf(),
    ensures
        store.devices.id_index().dom().contains(id@) ==> (r matches Ok(m) && m@
            == store.devices.by_key()[store.devices.id_index()[id@]].mac@),
        !store.devices.id_index().dom().contains(id@) ==> (r matches Err(
            CoreError::DeviceNotFound { identifier },
        ) && identifier@ == id_text(id@)),
{
    match store.device_by_id(id) {
        Some(d) => Ok(d.mac.duplicate()),
        None => Err(CoreError::DeviceNotFound { identifier: id.to_string() }),
    }
}

/// The MAC of the client the store indexes under `id`.
pub fn client_mac(store: &DataStore, id: &EntityId) -> (r: Result<MacAddress, CoreError>)
    requires
        store.wf(),
    ensures
        store.clients.id_index().dom().contains(id@) ==> (r matches Ok(m) && m@
            == store.clients.by_key()[store.clients.id_index()[id@]].mac@),
        !store.clients.id_index().dom().contains(id@) ==> (r matches Err(
            CoreError::ClientNotFound { identifier },
        ) && identifier@ == id_text(id@)),
{
    match store.client_by_id(id) {
        Some(c) => Ok(c.mac.duplicate()),
        None => Err(CoreError::ClientNotFound { identifier: id.to_string() }),
    }
}

/// How a failed API call failed, as far as the refresh cares.
#[derive(Debug)]
pub struct ApiFailure {
    /// The endpoint answered 404 (it does not exist on this firmware).
    pub not_found: bool,
    pub message: String,
}

/// A list endpoint's items, or nothing when the endpoint failed: some
/// endpoints are missing on older firmware, and a failed list must not
/// fail the whole refresh.
pub fn unwrap_or_empty<T>(endpoint: &str, result: Result<Vec<T>, ApiFailure>) -> (v: Vec<T>)
    ensures
        match result {
            Ok(items) => v@ == items@,
            Err(_) => v@.len() == 0,
        },
{
    match result {
        Ok(items) => items,
        Err(_) => Vec::new(),
    }
}

// ── TLS ─────────────────────────────────────────────────────────────

/// How the controller's certificate is checked.
#[derive(Debug, Clone)]
pub enum TlsVerification {
    /// The system's CA store (strict).
    SystemDefaults,
    /// A custom CA certificate file (its path).
    CustomCa(String),
    /// No verification (self-signed certificates); the default for local
    /// controllers.
    DangerAcceptInvalid,
}

/// Equality of two settings: same variant, and the same path for custom
/// CAs.
pub open spec fn tls_same(a: TlsVerification, b: TlsVerification) -> bool {
    match (a, b) {
        (TlsVerification::SystemDefaults, TlsVerification::SystemDefaults) => true,
        (TlsVerification::CustomCa(x), TlsVerification::CustomCa(y)) => x@ == y@,
        (TlsVerification::DangerAcceptInvalid, TlsVerification::DangerAcceptInvalid) => true,
        _ => false,
    }
}

impl PartialEq for TlsVerification {
    fn eq(&self, other: &Self) -> (r: bool) {
        match (self, other) {
            (TlsVerification::SystemDefaults, TlsVerification::SystemDefaults) => true,
            (TlsVerification::CustomCa(a), TlsVerification::CustomCa(b)) => str_eq(
                a.as_str(),
                b.as_str(),
            ),
            (TlsVerification::DangerAcceptInvalid, TlsVerification::DangerAcceptInvalid) => true,
            _ => false,
        }
    }
}

impl vstd::std_specs::cmp::PartialEqSpecImpl for TlsVerification {
    open spec fn obeys_eq_spec() -> bool {
        true
    }

    open spec fn eq_spec(&self, other: &Self) -> bool {
        tls_same(*self, *other)
    }
}

impl Default for TlsVerification {
    fn default() -> (t: Self)
        ensures
            t is DangerAcceptInvalid,
    {
        TlsVerification::DangerAcceptInvalid
    }
}

// ── Connecting and refreshing ───────────────────────────────────────

/// The kind of credentials a connection uses.
#[derive(Debug, Clone, Copy, PartialEq, Eq, Structural)]
pub enum AuthKind {
    /// Integration API key.
    ApiKey,
    /// Username and password (legacy API session).
    Credentials,
    /// API key and username/password.
    Hybrid,
    /// Cloud connector key.
    Cloud,
}

/// What happens with the legacy client while connecting.
#[derive(Debug, Clone, Copy, PartialEq, Eq, Structural)]
pub enum LegacySetup {
    /// No legacy client.
    Skip,
    /// Try to build one; a failure is not fatal.
    BestEffort,
    /// Build one and log in; a failure fails the connection.
    LoginRequired,
}

/// The steps connecting takes for a kind of credentials.
#[derive(Debug, Clone, Copy, PartialEq, Eq, Structural)]
pub struct ConnectPlan {
    /// Build an Integration API client and resolve the site's UUID.
    pub integration: bool,
    pub legacy: LegacySetup,
}

/// The plan for a kind of credentials: an API key uses the Integration
/// API and adds a legacy client if it can; credentials log in to the
/// legacy API only; hybrid does both, the login being required; cloud
/// keys are not supported.
pub open spec fn connect_plan_spec(auth: AuthKind) -> Option<ConnectPlan> {
    match auth {
        AuthKind::ApiKey => Some(ConnectPlan { integration: true, legacy: LegacySetup::BestEffort }),
        AuthKind::Credentials => Some(ConnectPlan { integration: false, legacy: LegacySetup::LoginRequired }),
        AuthKind::Hybrid => Some(ConnectPlan { integration: true, legacy: LegacySetup::LoginRequired }),
        AuthKind::Cloud => None,
    }
}

/// Decides how to connect (see `connect_plan_spec`); cloud keys are
/// refused.
pub fn connect_plan(auth: AuthKind) -> (r: Result<ConnectPlan, CoreError>)
    ensures
        match connect_plan_spec(auth) {
            Some(p) => r == Ok::<ConnectPlan, CoreError>(p),
            None => r matches Err(CoreError::Unsupported { operation, required }) && operation@
                == "cloud authentication"@ && required@ == "Cloud Connector client (not yet implemented)"@,
        },
{
    match auth {
        AuthKind::ApiKey => Ok(ConnectPlan { integration: true, legacy: LegacySetup::BestEffort }),
        AuthKind::Credentials => Ok(ConnectPlan { integration: false, legacy: LegacySetup::LoginRequired }),
        AuthKind::Hybrid => Ok(ConnectPlan { integration: true, legacy: LegacySetup::LoginRequired }),
        AuthKind::Cloud => Err(
            CoreError::Unsupported {
                operation: owned("cloud authentication"),
                required: owned("Cloud Connector client (not yet implemented)"),
            },
        ),
    }
}

/// Commands are accepted only while connected; in any other state the
/// controller is reported disconnected.
pub fn require_connected(state: ConnectionState) -> (r: Result<(), CoreError>)
    ensures
        state == ConnectionState::Connected ==> r is Ok,
        state != ConnectionState::Connected ==> r matches Err(CoreError::ControllerDisconnected),
{
    match state {
        ConnectionState::Connected => Ok(()),
        _ => Err(CoreError::ControllerDisconnected),
    }
}

/// Whether disconnecting ends a legacy session with a logout: only
/// session-based credentials (username and password, alone or with a key)
/// have one.
pub fn disconnect_logs_out(auth: AuthKind) -> (r: bool)
    ensures
        r == (auth == AuthKind::Credentials || auth == AuthKind::Hybrid),
{
    match auth {
        AuthKind::Credentials | AuthKind::Hybrid => true,
        _ => false,
    }
}

/// Where a full refresh reads from.
#[derive(Debug, Clone, Copy, PartialEq, Eq, Structural)]
pub enum RefreshSource {
    /// The Integration API (with the legacy API's events as supplement).
    Integration { site: u128 },
    /// The legacy API: devices, clients and events only.
    Legacy,
}

/// The source of a full refresh: the Integration API when the connection
/// has it with a resolved site, else the legacy API; neither is an error.
pub fn refresh_source(integration: bool, site_id: Option<u128>, legacy: bool) -> (r: Result<
    RefreshSource,
    CoreError,
>)
    ensures
        integration && site_id is Some ==> r == Ok::<RefreshSource, CoreError>(
            RefreshSource::Integration { site: site_id.unwrap() },
        ),
        !(integration && site_id is Some) && legacy ==> r == Ok::<RefreshSource, CoreError>(
            RefreshSource::Legacy,
        ),
        !(integration && site_id is Some) && !legacy ==> r matches Err(
            CoreError::ControllerDisconnected,
        ),
{
    if integration {
        if let Some(site) = site_id {
            return Ok(RefreshSource::Integration { site });
        }
    }
    if legacy {
        Ok(RefreshSource::Legacy)
    } else {
        Err(CoreError::ControllerDisconnected)
    }
}

/// The snapshot of an Integration API refresh: the core lists as fetched,
/// the optional ones (ACL rules, DNS policies, vouchers) empty when their
/// endpoint failed, the legacy events empty when there is no legacy client
/// or its fetch failed.
pub fn integration_snapshot(
    devices: Vec<Device>,
    clients: Vec<Client>,
    networks: Vec<Network>,
    wifi: Vec<WifiBroadcast>,
    policies: Vec<FirewallPolicy>,
    zones: Vec<FirewallZone>,
    sites: Vec<Site>,
    traffic_matching_lists: Vec<TrafficMatchingList>,
    acls: Result<Vec<AclRule>, ApiFailure>,
    dns: Result<Vec<DnsPolicy>, ApiFailure>,
    vouchers: Result<Vec<Voucher>, ApiFailure>,
    legacy_events: Option<Result<Vec<Event>, ApiFailure>>,
) -> (s: RefreshSnapshot)
    ensures
        s.devices@ == devices@,
        s.clients@ == clients@,
        s.networks@ == networks@,
        s.wifi@ == wifi@,
        s.policies@ == policies@,
        s.zones@ == zones@,
        s.sites@ == sites@,
        s.traffic_matching_lists@ == traffic_matching_lists@,
        s.acls@ == match acls {
            Ok(v) => v@,
            Err(_) => Seq::<AclRule>::empty(),
        },
        s.dns@ == match dns {
            Ok(v) => v@,
            Err(_) => Seq::<DnsPolicy>::empty(),
        },
        s.vouchers@ == match vouchers {
            Ok(v) => v@,
            Err(_) => Seq::<Voucher>::empty(),
        },
        s.events@ == match legacy_events {
            Some(Ok(v)) => v@,
            _ => Seq::<Event>::empty(),
        },
{
    let events = match legacy_events {
        Some(Ok(v)) => v,
        _ => Vec::new(),
    };
    RefreshSnapshot {
        devices,
        clients,
        networks,
        wifi,
        policies,
        zones,
        acls: unwrap_or_empty("acl/rules", acls),
        dns: unwrap_or_empty("dns/policies", dns),
        vouchers: unwrap_or_empty("vouchers", vouchers),
        sites,
        events,
        traffic_matching_lists,
    }
}

/// The snapshot of a legacy-only refresh: devices and clients, every other
/// list empty. The legacy events of such a refresh are broadcast, not
/// stored, so the snapshot holds none.
pub fn legacy_snapshot(devices: Vec<Device>, clients: Vec<Client>) -> (s: RefreshSnapshot)
    ensures
        s.devices@ == devices@,
        s.clients@ == clients@,
        s.events@.len() == 0,
        s.networks@.len() == 0,
        s.wifi@.len() == 0,
        s.policies@.len() == 0,
        s.zones@.len() == 0,
        s.acls@.len() == 0,
        s.dns@.len() == 0,
        s.vouchers@.len() == 0,
        s.sites@.len() == 0,
        s.traffic_matching_lists@.len() == 0,
{
    RefreshSnapshot {
        devices,
        clients,
        networks: Vec::new(),
        wifi: Vec::new(),
        policies: Vec::new(),
        zones: Vec::new(),
        acls: Vec::new(),
        dns: Vec::new(),
        vouchers: Vec::new(),
        sites: Vec::new(),
        events: Vec::new(),
        traffic_matching_lists: Vec::new(),
    }
}

// ── Event stream ────────────────────────────────────────────────────

/// Why the event stream is not opened; the interface then falls back to
/// polling.
#[derive(Debug, Clone, Copy, PartialEq, Eq, Structural)]
pub enum StreamSkip {
    /// The stream runs on the legacy API's session, and there is no legacy
    /// client.
    NoLegacyClient,
    /// The platform has no event stream.
    Unsupported,
    /// The stream's address does not parse.
    InvalidUrl,
    /// The legacy client has no session cookie to authenticate with.
    NoSession,
}

/// Whether to open the event stream, and at which address: it needs a
/// legacy client, a platform with an event stream, an address that parses
/// (see `websocket_address`) and a session cookie, checked in that order.
pub fn websocket_plan(legacy: bool, platform: ControllerPlatform, base: &str, site: &str, has_cookie: bool) -> (r:
    Result<String, StreamSkip>)
    ensures
        !legacy ==> r == Err::<String, StreamSkip>(StreamSkip::NoLegacyClient),
        legacy && websocket_path_spec(platform, site@) is None ==> r == Err::<String, StreamSkip>(
            StreamSkip::Unsupported,
        ),
        legacy && websocket_path_spec(platform, site@) is Some && websocket_address(base@, platform, site@) is None
            ==> r == Err::<String, StreamSkip>(StreamSkip::InvalidUrl),
        legacy && websocket_address(base@, platform, site@) is Some && !has_cookie ==> r == Err::<
            String,
            StreamSkip,
        >(StreamSkip::NoSession),
        legacy && has_cookie && websocket_address(base@, platform, site@) is Some ==> (r matches Ok(u) && Some(u@)
            == websocket_address(base@, platform, site@)),
{
    if !legacy {
        return Err(StreamSkip::NoLegacyClient);
    }
    if let ControllerPlatform::Cloud = platform {
        return Err(StreamSkip::Unsupported);
    }
    match websocket_url(base, platform, site) {
        None => Err(StreamSkip::InvalidUrl),
        Some(u) => if has_cookie {
            Ok(u)
        } else {
            Err(StreamSkip::NoSession)
        },
    }
}

// ── Site resolution ─────────────────────────────────────────────────

/// The UUID a configured site name already is, when it parses as one; such
/// a site needs no lookup.
pub fn site_name_uuid(site_name: &str) -> (r: Option<u128>)
    ensures
        r == uuid_parse(site_name@),
{
    parse_uuid(site_name)
}

/// The id of the first listed site whose internal reference is `name`.
pub open spec fn first_site_with(sites: Seq<SiteResponse>, name: Seq<char>) -> Option<u128>
    decreases sites.len(),
{
    if sites.len() == 0 {
        None
    } else if sites[0].internal_reference@ == name {
        Some(sites[0].id)
    } else {
        first_site_with(sites.drop_first(), name)
    }
}

/// Finds the site a configured name refers to among the listed sites, by
/// internal reference; `SiteNotFound` when no site has it.
pub fn find_site_id(sites: &Vec<SiteResponse>, site_name: &str) -> (r: Result<u128, CoreError>)
    ensures
        match first_site_with(sites@, site_name@) {
            Some(u) => r == Ok::<u128, CoreError>(u),
            None => r matches Err(CoreError::SiteNotFound { name }) && name@ == site_name@,
        },
{
    let mut i: usize = 0;
    assert(sites@.subrange(0, sites@.len() as int) =~= sites@);
    while i < sites.len()
        invariant
            i <= sites@.len(),
            first_site_with(sites@, site_name@) == first_site_with(
                sites@.subrange(i as int, sites@.len() as int),
                site_name@,
            ),
        decreases sites.len() - i,
    {
        let ghost rest = sites@.subrange(i as int, sites@.len() as int);
        assert(rest.drop_first() =~= sites@.subrange(i + 1, sites@.len() as int));
        assert(rest[0] == sites@[i as int]);
        if str_eq(sites[i].internal_reference.as_str(), site_name) {
            return Ok(sites[i].id);
        }
        i = i + 1;
    }
    Err(CoreError::SiteNotFound { name: owned(site_name) })
}

} // verus!
