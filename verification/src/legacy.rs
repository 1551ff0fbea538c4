//! Device and client records of the Legacy API and their mapping to the
//! domain model. An address is kept, in the text the controller sent,
//! when it reads as an IP address.

use vstd::prelude::*;

use crate::convert::{
    channel_band, channel_band_spec, device_state_spec, device_type_spec, infer_device_type,
    map_device_state,
};
use crate::entity_id::{id_from_text, normalized_mac, EntityId, EntityIdView, MacAddress};
use crate::integration::{opt_id, opt_string};
use crate::network_record::{ip_of, keep_ip};
use crate::model::{
    Client, ClientType, DataSource, Device, DeviceStats, DeviceType, GuestAuth, WirelessInfo,
};

verus! {

// ── Narrowing of the API's signed integers ──────────────────────────

/// A signed amount as an unsigned one, when it is not negative.
pub open spec fn nonneg_u64(o: Option<i64>) -> Option<u64> {
    match o {
        Some(v) => if v >= 0 { Some(v as u64) } else { None },
        None => None,
    }
}

/// A signed count as a `u32`, when it fits.
pub open spec fn fits_u32(o: Option<i64>) -> Option<u32> {
    match o {
        Some(v) => if 0 <= v <= u32::MAX { Some(v as u32) } else { None },
        None => None,
    }
}

/// A signed 32-bit value as a `u32`, when it is not negative.
pub open spec fn nonneg_u32(o: Option<i32>) -> Option<u32> {
    match o {
        Some(v) => if v >= 0 { Some(v as u32) } else { None },
        None => None,
    }
}

/// A signed 32-bit value as a `u8`, when it fits.
pub open spec fn fits_u8(o: Option<i32>) -> Option<u8> {
    match o {
        Some(v) => if 0 <= v <= 255 { Some(v as u8) } else { None },
        None => None,
    }
}

/// `nonneg_u64`, computed.
pub fn to_nonneg_u64(o: Option<i64>) -> (r: Option<u64>)
    ensures
        r == nonneg_u64(o),
{
    match o {
        Some(v) => if v >= 0 { Some(v as u64) } else { None },
        None => None,
    }
}

/// `fits_u32`, computed.
pub fn to_fits_u32(o: Option<i64>) -> (r: Option<u32>)
    ensures
        r == fits_u32(o),
{
    match o {
        Some(v) => if 0 <= v && v <= 4294967295i64 { Some(v as u32) } else { None },
        None => None,
    }
}

/// `nonneg_u32`, computed.
pub fn to_nonneg_u32(o: Option<i32>) -> (r: Option<u32>)
    ensures
        r == nonneg_u32(o),
{
    match o {
        Some(v) => if v >= 0 { Some(v as u32) } else { None },
        None => None,
    }
}

/// `fits_u8`, computed.
pub fn to_fits_u8(o: Option<i32>) -> (r: Option<u8>)
    ensures
        r == fits_u8(o),
{
    match o {
        Some(v) => if 0 <= v && v <= 255i32 { Some(v as u8) } else { None },
        None => None,
    }
}

/// The view of an optional MAC address.
pub open spec fn opt_mac(o: Option<MacAddress>) -> Option<Seq<char>> {
    match o {
        Some(m) => Some(m@),
        None => None,
    }
}

/// The normalized form of an optional MAC address text.
pub open spec fn normalized_opt_mac(o: Option<Seq<char>>) -> Option<Seq<char>> {
    match o {
        Some(m) => Some(normalized_mac(m)),
        None => None,
    }
}

/// An optional MAC address text, normalized.
pub fn mac_of(o: &Option<String>) -> (r: Option<MacAddress>)
    ensures
        opt_mac(r) == normalized_opt_mac(opt_string(*o)),
{
    match o {
        Some(m) => Some(MacAddress::new(m.as_str())),
        None => None,
    }
}

// ── Devices ─────────────────────────────────────────────────────────

/// A device record of the Legacy API (`stat/device`).
pub struct LegacyDevice {
    pub id: String,
    pub mac: String,
    pub ip: Option<String>,
    pub name: Option<String>,
    pub model: Option<String>,
    /// The `type` field: `uap`, `usw`, `ugw`, `udm`, ...
    pub device_type: String,
    /// The integer state code.
    pub state: i32,
    pub version: Option<String>,
    pub upgradable: Option<bool>,
    pub serial: Option<String>,
    /// Seconds since boot.
    pub uptime: Option<i64>,
    /// Number of connected stations.
    pub num_sta: Option<i64>,
}

impl Device {
    /// The domain device for a Legacy API record. The type comes from the
    /// `type` field (or the model), the state from its code; switches and
    /// gateways switch, access points serve WiFi; the legacy API lists only
    /// supported devices.
    pub fn from_legacy(d: LegacyDevice) -> (r: Device)
        ensures
            r.id@ == id_from_text(d.id@),
            r.mac@ == normalized_mac(d.mac@),
            opt_string(r.ip) == ip_of(opt_string(d.ip)),
            r.wan_ipv6 is None,
            opt_string(r.name) == opt_string(d.name),
            opt_string(r.model) == opt_string(d.model),
            r.device_type == device_type_spec(d.device_type@, opt_string(d.model)),
            r.state == device_state_spec(d.state),
            opt_string(r.firmware_version) == opt_string(d.version),
            r.firmware_updatable == (d.upgradable == Some(true)),
            opt_string(r.serial) == opt_string(d.serial),
            r.supported,
            r.uplink_device_mac is None,
            r.has_switching == (r.device_type == DeviceType::Switch || r.device_type
                == DeviceType::Gateway),
            r.has_access_point == (r.device_type == DeviceType::AccessPoint),
            r.stats.uptime_secs == nonneg_u64(d.uptime),
            r.stats.uplink_bandwidth is None,
            r.client_count == fits_u32(d.num_sta),
            r.origin is None,
            r.source == DataSource::LegacyApi,
    {
        let device_type = infer_device_type(d.device_type.as_str(), d.model.as_ref());
        let state = map_device_state(d.state);
        let is_switch = match device_type {
            DeviceType::Switch | DeviceType::Gateway => true,
            _ => false,
        };
        let is_ap = match device_type {
            DeviceType::AccessPoint => true,
            _ => false,
        };
        let firmware_updatable = match d.upgradable {
            Some(b) => b,
            None => false,
        };
        Device {
            id: EntityId::from_text(d.id.as_str()),
            mac: MacAddress::new(d.mac.as_str()),
            ip: keep_ip(d.ip),
            wan_ipv6: None,
            name: d.name,
            model: d.model,
            device_type,
            state,
            firmware_version: d.version,
            firmware_updatable,
            serial: d.serial,
            supported: true,
            uplink_device_mac: None,
            has_switching: is_switch,
            has_access_point: is_ap,
            stats: DeviceStats { uptime_secs: to_nonneg_u64(d.uptime), uplink_bandwidth: None },
            client_count: to_fits_u32(d.num_sta),
            origin: None,
            source: DataSource::LegacyApi,
        }
    }
}

// ── Clients ─────────────────────────────────────────────────────────

/// A client record of the Legacy API (`stat/sta`).
pub struct LegacyClientEntry {
    pub id: String,
    pub mac: String,
    pub ip: Option<String>,
    pub name: Option<String>,
    pub hostname: Option<String>,
    pub is_wired: Option<bool>,
    pub essid: Option<String>,
    pub bssid: Option<String>,
    pub channel: Option<i32>,
    pub signal: Option<i32>,
    pub rssi: Option<i32>,
    pub noise: Option<i32>,
    pub satisfaction: Option<i32>,
    pub tx_rate: Option<i64>,
    pub rx_rate: Option<i64>,
    pub is_guest: Option<bool>,
    pub authorized: Option<bool>,
    pub tx_bytes: Option<i64>,
    pub rx_bytes: Option<i64>,
    /// The switch a wired client hangs off.
    pub sw_mac: Option<String>,
    /// The access point a wireless client is associated with.
    pub ap_mac: Option<String>,
    pub network_id: Option<String>,
    pub blocked: Option<bool>,
}

/// The first of two optional values that is present.
pub open spec fn or_else<T>(a: Option<T>, b: Option<T>) -> Option<T> {
    match a {
        Some(x) => Some(x),
        None => b,
    }
}

/// What a record says of a wireless client's link.
pub open spec fn wireless_fits(w: WirelessInfo, c: LegacyClientEntry) -> bool {
    &&& opt_string(w.ssid) == opt_string(c.essid)
    &&& opt_mac(w.bssid) == normalized_opt_mac(opt_string(c.bssid))
    &&& w.channel == nonneg_u32(c.channel)
    &&& w.frequency_band == match c.channel {
        Some(ch) => Some(channel_band_spec(ch)),
        None => None,
    }
    &&& w.signal_dbm == or_else(c.signal, c.rssi)
    &&& w.noise_dbm == c.noise
    &&& w.satisfaction == fits_u8(c.satisfaction)
    &&& w.tx_rate_kbps == nonneg_u64(c.tx_rate)
    &&& w.rx_rate_kbps == nonneg_u64(c.rx_rate)
}

/// What a record says of a guest's authorization.
pub open spec fn guest_fits(g: GuestAuth, c: LegacyClientEntry) -> bool {
    &&& g.authorized == (c.authorized == Some(true))
    &&& g.method is None
    &&& g.tx_bytes == nonneg_u64(c.tx_bytes)
    &&& g.rx_bytes == nonneg_u64(c.rx_bytes)
    &&& g.elapsed_minutes is None
}

/// The id that an optional text denotes.
pub open spec fn opt_id_from_text(o: Option<Seq<char>>) -> Option<EntityIdView> {
    match o {
        Some(s) => Some(id_from_text(s)),
        None => None,
    }
}

fn clone_opt(o: &Option<String>) -> (r: Option<String>)
    ensures
        opt_string(r) == opt_string(*o),
{
    match o {
        Some(s) => Some(s.clone()),
        None => None,
    }
}

impl Client {
    /// The domain client for a Legacy API record. A client is wired only
    /// when the record says so; wireless clients carry their link details
    /// and hang off their access point, wired ones off their switch; guests
    /// carry their authorization.
    pub fn from_legacy(c: LegacyClientEntry) -> (r: Client)
        ensures
            r.id@ == id_from_text(c.id@),
            r.mac@ == normalized_mac(c.mac@),
            opt_string(r.ip) == ip_of(opt_string(c.ip)),
            opt_string(r.name) == opt_string(c.name),
            opt_string(r.hostname) == opt_string(c.hostname),
            r.client_type == (if c.is_wired == Some(true) {
                ClientType::Wired
            } else {
                ClientType::Wireless
            }),
            r.uplink_device_id is None,
            opt_mac(r.uplink_device_mac) == normalized_opt_mac(
                opt_string(if c.is_wired == Some(true) { c.sw_mac } else { c.ap_mac }),
            ),
            opt_id(r.network_id) == opt_id_from_text(opt_string(c.network_id)),
            r.vlan is None,
            c.is_wired == Some(true) ==> r.wireless is None,
            c.is_wired != Some(true) ==> r.wireless is Some && wireless_fits(r.wireless->0, c),
            r.is_guest == (c.is_guest == Some(true)),
            c.is_guest == Some(true) ==> r.guest_auth is Some && guest_fits(r.guest_auth->0, c),
            c.is_guest != Some(true) ==> r.guest_auth is None,
            r.tx_bytes == nonneg_u64(c.tx_bytes),
            r.rx_bytes == nonneg_u64(c.rx_bytes),
            r.bandwidth is None,
            r.os_name is None,
            r.device_class is None,
            r.blocked == (c.blocked == Some(true)),
            r.source == DataSource::LegacyApi,
    {
        let is_wired = match c.is_wired {
            Some(b) => b,
            None => false,
        };
        let client_type = if is_wired { ClientType::Wired } else { ClientType::Wireless };
        let wireless = if !is_wired {
            let signal_dbm = match c.signal {
                Some(s) => Some(s),
                None => c.rssi,
            };
            Some(WirelessInfo {
                ssid: clone_opt(&c.essid),
                bssid: mac_of(&c.bssid),
                channel: to_nonneg_u32(c.channel),
                frequency_band: channel_band(c.channel),
                signal_dbm,
                noise_dbm: c.noise,
                satisfaction: to_fits_u8(c.satisfaction),
                tx_rate_kbps: to_nonneg_u64(c.tx_rate),
                rx_rate_kbps: to_nonneg_u64(c.rx_rate),
            })
        } else {
            None
        };
        let is_guest = match c.is_guest {
            Some(b) => b,
            None => false,
        };
        let guest_auth = if is_guest {
            let authorized = match c.authorized {
                Some(b) => b,
                None => false,
            };
            Some(GuestAuth {
                authorized,
                method: None,
                tx_bytes: to_nonneg_u64(c.tx_bytes),
                rx_bytes: to_nonneg_u64(c.rx_bytes),
                elapsed_minutes: None,
            })
        } else {
            None
        };
        let uplink_device_mac = if is_wired { mac_of(&c.sw_mac) } else { mac_of(&c.ap_mac) };
        let network_id = match &c.network_id {
            Some(n) => Some(EntityId::from_text(n.as_str())),
            None => None,
        };
        let blocked = match c.blocked {
            Some(b) => b,
            None => false,
        };
        Client {
            id: EntityId::from_text(c.id.as_str()),
            mac: MacAddress::new(c.mac.as_str()),
            ip: keep_ip(c.ip),
            name: c.name,
            hostname: c.hostname,
            client_type,
            uplink_device_id: None,
            uplink_device_mac,
            network_id,
            vlan: None,
            wireless,
            guest_auth,
            is_guest,
            tx_bytes: to_nonneg_u64(c.tx_bytes),
            rx_bytes: to_nonneg_u64(c.rx_bytes),
            bandwidth: None,
            os_name: None,
            device_class: None,
            blocked,
            source: DataSource::LegacyApi,
        }
    }
}

} // verus!
