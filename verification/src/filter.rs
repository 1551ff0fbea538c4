//! Filter predicates over device and client snapshots, and the counts the
//! dashboard shows.

use std::sync::Arc;

use vstd::prelude::*;

use crate::entity_id::{EntityId, MacAddress};
use crate::model::{Client, ClientType, Device, DeviceState, DeviceType};

verus! {

/// Filter predicate for device collections.
pub enum DeviceFilter {
    All,
    ByType(DeviceType),
    ByState(DeviceState),
    Online,
    Offline,
}

/// Whether a device passes a filter.
pub open spec fn device_matches(f: DeviceFilter, d: Device) -> bool {
    match f {
        DeviceFilter::All => true,
        DeviceFilter::ByType(t) => d.device_type == t,
        DeviceFilter::ByState(s) => d.state == s,
        DeviceFilter::Online => d.state == DeviceState::Online,
        DeviceFilter::Offline => d.state == DeviceState::Offline,
    }
}

impl DeviceFilter {
    /// Whether `device` passes this filter.
    pub fn matches(&self, device: &Device) -> (r: bool)
        ensures
            r == device_matches(*self, *device),
    {
        match self {
            DeviceFilter::All => true,
            DeviceFilter::ByType(dt) => device.device_type == *dt,
            DeviceFilter::ByState(ds) => device.state == *ds,
            DeviceFilter::Online => device.state.is_online(),
            DeviceFilter::Offline => matches!(device.state, DeviceState::Offline),
        }
    }
}

/// Filter predicate for client collections.
pub enum ClientFilter {
    All,
    ByType(ClientType),
    ByNetwork(EntityId),
    ByDevice(MacAddress),
    Guests,
    Blocked,
}

/// Whether a client passes a filter.
pub open spec fn client_matches(f: ClientFilter, c: Client) -> bool {
    match f {
        ClientFilter::All => true,
        ClientFilter::ByType(t) => c.client_type == t,
        ClientFilter::ByNetwork(nid) => match c.network_id {
            Some(n) => n@ == nid@,
            None => false,
        },
        ClientFilter::ByDevice(mac) => match c.uplink_device_mac {
            Some(m) => m@ == mac@,
            None => false,
        },
        ClientFilter::Guests => c.is_guest,
        ClientFilter::Blocked => c.blocked,
    }
}

/// The Guests filter accepts a client exactly when it is a guest: whether
/// the client is blocked, and every other field, plays no part. Likewise the
/// Blocked filter accepts exactly the blocked clients, guest or not.
pub proof fn lemma_guest_and_blocked_filters(c: Client, is_guest: bool, blocked: bool)
    ensures
        client_matches(ClientFilter::Guests, c) <==> c.is_guest,
        client_matches(ClientFilter::Guests, Client { blocked, ..c }) == client_matches(ClientFilter::Guests, c),
        client_matches(ClientFilter::Blocked, c) <==> c.blocked,
        client_matches(ClientFilter::Blocked, Client { is_guest, ..c }) == client_matches(ClientFilter::Blocked, c),
        client_matches(ClientFilter::All, c),
        client_matches(ClientFilter::ByType(c.client_type), c),
{
}

impl ClientFilter {
    /// Whether `client` passes this filter.
    pub fn matches(&self, client: &Client) -> (r: bool)
        ensures
            r == client_matches(*self, *client),
    {
        match self {
            ClientFilter::All => true,
            ClientFilter::ByType(ct) => client.client_type == *ct,
            ClientFilter::ByNetwork(nid) => match &client.network_id {
                Some(n) => n.same(nid),
                None => false,
            },
            ClientFilter::ByDevice(mac) => match &client.uplink_device_mac {
                Some(m) => m.same(mac),
                None => false,
            },
            ClientFilter::Guests => client.is_guest,
            ClientFilter::Blocked => client.blocked,
        }
    }
}

/// The devices of a snapshot that pass a filter, in order.
pub fn filter_devices(devices: &Vec<Arc<Device>>, f: &DeviceFilter) -> (r: Vec<Arc<Device>>)
    ensures
        r@.len() <= devices@.len(),
        forall|i: int| 0 <= i < r.len() ==> device_matches(*f, *#[trigger] r@[i]),
        r@.len() == count_devices(devices@, *f),
{
    let mut r: Vec<Arc<Device>> = Vec::new();
    let mut i: usize = 0;
    while i < devices.len()
        invariant
            i <= devices.len(),
            r@.len() <= i,
            forall|j: int| 0 <= j < r.len() ==> device_matches(*f, *#[trigger] r@[j]),
            r@.len() == count_devices(devices@.subrange(0, i as int), *f),
        decreases devices.len() - i,
    {
        let d = &devices[i];
        proof {
            assert(devices@.subrange(0, i + 1 as int).drop_last() == devices@.subrange(0, i as int));
        }
        if f.matches(d) {
            r.push(crate::collection::share_entity(d));
        }
        i = i + 1;
    }
    assert(devices@.subrange(0, devices@.len() as int) == devices@);
    r
}

/// How many devices of a list pass a filter.
pub open spec fn count_devices(s: Seq<Arc<Device>>, f: DeviceFilter) -> nat
    decreases s.len(),
{
    if s.len() == 0 {
        0
    } else {
        count_devices(s.drop_last(), f) + if device_matches(f, *s.last()) { 1nat } else { 0nat }
    }
}

/// Whether a state counts as down on the dashboard.
pub open spec fn is_down_state(s: DeviceState) -> bool {
    s == DeviceState::Offline || s == DeviceState::ConnectionInterrupted || s == DeviceState::Isolated
}

/// Devices counted as online, down, and in transition (any other state).
pub open spec fn state_counts(s: Seq<Arc<Device>>) -> (nat, nat, nat)
    decreases s.len(),
{
    if s.len() == 0 {
        (0, 0, 0)
    } else {
        let c = state_counts(s.drop_last());
        let st = s.last().state;
        if st == DeviceState::Online {
            (c.0 + 1, c.1, c.2)
        } else if is_down_state(st) {
            (c.0, c.1 + 1, c.2)
        } else {
            (c.0, c.1, c.2 + 1)
        }
    }
}

/// Count devices by state: online, offline (offline, connection
/// interrupted, isolated), and transitional (everything else).
pub fn device_counts(devices: &Vec<Arc<Device>>) -> (r: (usize, usize, usize))
    ensures
        (r.0 as nat, r.1 as nat, r.2 as nat) == state_counts(devices@),
        r.0 + r.1 + r.2 == devices@.len(),
{
    let mut online: usize = 0;
    let mut offline: usize = 0;
    let mut transitional: usize = 0;
    let mut i: usize = 0;
    while i < devices.len()
        invariant
            i <= devices.len(),
            (online as nat, offline as nat, transitional as nat) == state_counts(devices@.subrange(0, i as int)),
            online + offline + transitional == i,
        decreases devices.len() - i,
    {
        proof {
            assert(devices@.subrange(0, i + 1 as int).drop_last() == devices@.subrange(0, i as int));
        }
        match devices[i].state {
            DeviceState::Online => online = online + 1,
            DeviceState::Offline | DeviceState::ConnectionInterrupted | DeviceState::Isolated => offline = offline + 1,
            _ => transitional = transitional + 1,
        }
        i = i + 1;
    }
    assert(devices@.subrange(0, devices@.len() as int) == devices@);
    (online, offline, transitional)
}

/// How many clients of a list have a given connection type.
pub open spec fn count_client_type(s: Seq<Arc<Client>>, t: ClientType) -> nat
    decreases s.len(),
{
    if s.len() == 0 {
        0
    } else {
        count_client_type(s.drop_last(), t) + if s.last().client_type == t { 1nat } else { 0nat }
    }
}

/// Number of clients with a given connection type.
pub fn client_type_count(clients: &Vec<Arc<Client>>, t: ClientType) -> (n: usize)
    ensures
        n == count_client_type(clients@, t),
        n <= clients@.len(),
{
    let mut n: usize = 0;
    let mut i: usize = 0;
    while i < clients.len()
        invariant
            i <= clients.len(),
            n == count_client_type(clients@.subrange(0, i as int), t),
            n <= i,
        decreases clients.len() - i,
    {
        proof {
            assert(clients@.subrange(0, i + 1 as int).drop_last() == clients@.subrange(0, i as int));
        }
        if clients[i].client_type == t {
            n = n + 1;
        }
        i = i + 1;
    }
    assert(clients@.subrange(0, clients@.len() as int) == clients@);
    n
}

} // verus!
