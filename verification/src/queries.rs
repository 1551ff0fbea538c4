//! Reference data that the controller answers ad-hoc queries with (VPN,
//! WAN, DPI, RADIUS, countries, administrators, system information and
//! health), read from the records' fields into the domain model.

use vstd::prelude::*;

use crate::entity_id::{EntityId, EntityIdView};
use crate::integration::{string_list, uuid_ref, uuid_ref_of};
use crate::json::{
    as_array, as_bool, as_str, as_u64, bool_of, deref_opt, get, get_field, str_of, string_items,
    string_items_of, u64_of, Json,
};
use crate::model::{
    text_view, Admin, Country, DpiApplication, DpiCategory, HealthSummary, RadiusProfile,
    SysInfo, SystemInfo, VpnServer, VpnTunnel, WanInterface,
};
use crate::network_record::{bool_or, either, first_item, ip_list, ip_of};
use crate::text::owned;

verus! {

// ── Reading fields ──────────────────────────────────────────────────

/// An optional text, or else `default`.
pub open spec fn text_or(o: Option<Seq<char>>, default: Seq<char>) -> Seq<char> {
    match o {
        Some(s) => s,
        None => default,
    }
}

/// The id a record carries in its `id` field when that is a UUID text,
/// else the legacy id `unknown`.
pub open spec fn uuid_or_unknown(fields: Json) -> EntityIdView {
    match uuid_ref(as_str(get(fields, "id"@))) {
        Some(i) => i,
        None => EntityIdView::Legacy("unknown"@),
    }
}

/// An optional unsigned number, truncated to 32 bits.
pub open spec fn truncated_u32(o: Option<u64>) -> Option<u32> {
    match o {
        Some(n) => Some(n as u32),
        None => None,
    }
}

fn text_field_or(fields: &Json, key: &str, default: &str) -> (r: String)
    ensures
        r@ == text_or(as_str(get(*fields, key@)), default@),
{
    match str_of(get_field(fields, key)) {
        Some(s) => owned(s),
        None => owned(default),
    }
}

fn text_field(fields: &Json, key: &str) -> (r: Option<String>)
    ensures
        text_view(r) == as_str(get(*fields, key@)),
{
    match str_of(get_field(fields, key)) {
        Some(s) => Some(owned(s)),
        None => None,
    }
}

/// The entry `k1` of a record, or else its entry `k2`.
fn either_field<'a>(fields: &'a Json, k1: &str, k2: &str) -> (r: Option<&'a Json>)
    ensures
        deref_opt(r) == either(get(*fields, k1@), get(*fields, k2@)),
{
    match get_field(fields, k1) {
        Some(v) => Some(v),
        None => get_field(fields, k2),
    }
}

fn id_or_unknown(fields: &Json) -> (r: EntityId)
    ensures
        r@ == uuid_or_unknown(*fields),
{
    match uuid_ref_of(str_of(get_field(fields, "id"))) {
        Some(i) => i,
        None => EntityId::Legacy(owned("unknown")),
    }
}

fn u64_field_or_zero(fields: &Json, key: &str) -> (r: u64)
    ensures
        r == match as_u64(get(*fields, key@)) {
            Some(n) => n,
            None => 0,
        },
{
    match u64_of(get_field(fields, key)) {
        Some(n) => n,
        None => 0,
    }
}

fn truncated_u32_of(o: Option<u64>) -> (r: Option<u32>)
    ensures
        r == truncated_u32(o),
{
    match o {
        Some(n) => Some(n as u32),
        None => None,
    }
}

// ── Integration API records ─────────────────────────────────────────

impl VpnServer {
    /// A VPN server from its record: `type` (or `serverType`) names its
    /// kind, `UNKNOWN` when neither is a text.
    pub fn from_fields(fields: &Json) -> (r: VpnServer)
        ensures
            r.id@ == uuid_or_unknown(*fields),
            text_view(r.name) == as_str(get(*fields, "name"@)),
            r.server_type@ == text_or(
                as_str(either(get(*fields, "type"@), get(*fields, "serverType"@))),
                "UNKNOWN"@,
            ),
            r.enabled == as_bool(get(*fields, "enabled"@)),
    {
        let server_type = match str_of(either_field(fields, "type", "serverType")) {
            Some(s) => owned(s),
            None => owned("UNKNOWN"),
        };
        VpnServer {
            id: id_or_unknown(fields),
            name: text_field(fields, "name"),
            server_type,
            enabled: bool_of(get_field(fields, "enabled")),
        }
    }
}

impl VpnTunnel {
    /// A VPN tunnel from its record: `type` (or `tunnelType`) names its
    /// kind, `UNKNOWN` when neither is a text.
    pub fn from_fields(fields: &Json) -> (r: VpnTunnel)
        ensures
            r.id@ == uuid_or_unknown(*fields),
            text_view(r.name) == as_str(get(*fields, "name"@)),
            r.tunnel_type@ == text_or(
                as_str(either(get(*fields, "type"@), get(*fields, "tunnelType"@))),
                "UNKNOWN"@,
            ),
            r.enabled == as_bool(get(*fields, "enabled"@)),
    {
        let tunnel_type = match str_of(either_field(fields, "type", "tunnelType")) {
            Some(s) => owned(s),
            None => owned("UNKNOWN"),
        };
        VpnTunnel {
            id: id_or_unknown(fields),
            name: text_field(fields, "name"),
            tunnel_type,
            enabled: bool_of(get_field(fields, "enabled")),
        }
    }
}

fn ip_field(fields: &Json, key: &str) -> (r: Option<String>)
    ensures
        text_view(r) == ip_of(as_str(get(*fields, key@))),
{
    match str_of(get_field(fields, key)) {
        Some(s) => if crate::address::is_ip_text(s) { Some(owned(s)) } else { None },
        None => None,
    }
}

impl WanInterface {
    /// A WAN interface from its record; addresses are kept when they read
    /// as addresses (`ipAddress`, or else `ip`).
    pub fn from_fields(fields: &Json) -> (r: WanInterface)
        ensures
            r.id@ == uuid_or_unknown(*fields),
            text_view(r.name) == as_str(get(*fields, "name"@)),
            text_view(r.ip) == either(
                ip_of(as_str(get(*fields, "ipAddress"@))),
                ip_of(as_str(get(*fields, "ip"@))),
            ),
            text_view(r.gateway) == ip_of(as_str(get(*fields, "gateway"@))),
            r.dns@.map_values(|s: String| s@) == ip_list(get(*fields, "dns"@)),
    {
        let ip = match ip_field(fields, "ipAddress") {
            Some(a) => Some(a),
            None => ip_field(fields, "ip"),
        };
        WanInterface {
            id: id_or_unknown(fields),
            name: text_field(fields, "name"),
            ip,
            gateway: ip_field(fields, "gateway"),
            dns: crate::network_record::ip_list_of(get_field(fields, "dns")),
        }
    }
}

impl DpiCategory {
    /// A DPI category from its record (numbers absent: 0; no applications).
    pub fn from_fields(fields: &Json) -> (r: DpiCategory)
        ensures
            r.id == (match as_u64(get(*fields, "id"@)) {
                Some(n) => n,
                None => 0,
            }) as u32,
            r.name@ == text_or(as_str(get(*fields, "name"@)), "Unknown"@),
            r.tx_bytes == match as_u64(get(*fields, "txBytes"@)) {
                Some(n) => n,
                None => 0,
            },
            r.rx_bytes == match as_u64(get(*fields, "rxBytes"@)) {
                Some(n) => n,
                None => 0,
            },
            r.apps@.len() == 0,
    {
        let id = u64_field_or_zero(fields, "id") as u32;
        DpiCategory {
            id,
            name: text_field_or(fields, "name", "Unknown"),
            tx_bytes: u64_field_or_zero(fields, "txBytes"),
            rx_bytes: u64_field_or_zero(fields, "rxBytes"),
            apps: Vec::new(),
        }
    }
}

impl DpiApplication {
    /// A DPI application from its record (numbers absent: 0).
    pub fn from_fields(fields: &Json) -> (r: DpiApplication)
        ensures
            r.id == (match as_u64(get(*fields, "id"@)) {
                Some(n) => n,
                None => 0,
            }) as u32,
            r.name@ == text_or(as_str(get(*fields, "name"@)), "Unknown"@),
            r.category_id == (match as_u64(get(*fields, "categoryId"@)) {
                Some(n) => n,
                None => 0,
            }) as u32,
            r.tx_bytes == match as_u64(get(*fields, "txBytes"@)) {
                Some(n) => n,
                None => 0,
            },
            r.rx_bytes == match as_u64(get(*fields, "rxBytes"@)) {
                Some(n) => n,
                None => 0,
            },
    {
        let id = u64_field_or_zero(fields, "id") as u32;
        let category_id = u64_field_or_zero(fields, "categoryId") as u32;
        DpiApplication {
            id,
            name: text_field_or(fields, "name", "Unknown"),
            category_id,
            tx_bytes: u64_field_or_zero(fields, "txBytes"),
            rx_bytes: u64_field_or_zero(fields, "rxBytes"),
        }
    }
}

impl RadiusProfile {
    /// A RADIUS profile from its record.
    pub fn from_fields(fields: &Json) -> (r: RadiusProfile)
        ensures
            r.id@ == uuid_or_unknown(*fields),
            r.name@ == text_or(as_str(get(*fields, "name"@)), "Unknown"@),
    {
        RadiusProfile { id: id_or_unknown(fields), name: text_field_or(fields, "name", "Unknown") }
    }
}

impl Country {
    /// A country from its record.
    pub fn from_fields(fields: &Json) -> (r: Country)
        ensures
            r.code@ == text_or(as_str(get(*fields, "code"@)), ""@),
            r.name@ == text_or(as_str(get(*fields, "name"@)), "Unknown"@),
    {
        Country { code: text_field_or(fields, "code", ""), name: text_field_or(fields, "name", "Unknown") }
    }
}

impl SystemInfo {
    /// System information from the Integration API's `info` record (which
    /// carries no address).
    pub fn from_info(f: &Json) -> (r: SystemInfo)
        ensures
            text_view(r.controller_name) == as_str(either(get(*f, "applicationName"@), get(*f, "name"@))),
            r.version@ == text_or(
                as_str(either(get(*f, "applicationVersion"@), get(*f, "version"@))),
                "unknown"@,
            ),
            text_view(r.build) == as_str(get(*f, "build"@)),
            text_view(r.hostname) == as_str(get(*f, "hostname"@)),
            r.ip is None,
            r.uptime_secs == as_u64(get(*f, "uptime"@)),
            r.update_available == as_bool(either(get(*f, "isUpdateAvailable"@), get(*f, "update_available"@))),
    {
        let controller_name = match str_of(either_field(f, "applicationName", "name")) {
            Some(s) => Some(owned(s)),
            None => None,
        };
        let version = match str_of(either_field(f, "applicationVersion", "version")) {
            Some(s) => owned(s),
            None => owned("unknown"),
        };
        SystemInfo {
            controller_name,
            version,
            build: text_field(f, "build"),
            hostname: text_field(f, "hostname"),
            ip: None,
            uptime_secs: u64_of(get_field(f, "uptime")),
            update_available: bool_of(either_field(f, "isUpdateAvailable", "update_available")),
        }
    }

    /// System information from the Legacy API's `stat/sysinfo` record: the
    /// address is the first of `ip_addrs`, when it reads as one.
    pub fn from_sysinfo(raw: &Json) -> (r: SystemInfo)
        ensures
            text_view(r.controller_name) == as_str(either(get(*raw, "controller_name"@), get(*raw, "name"@))),
            r.version@ == text_or(as_str(get(*raw, "version"@)), "unknown"@),
            text_view(r.build) == as_str(get(*raw, "build"@)),
            text_view(r.hostname) == as_str(get(*raw, "hostname"@)),
            text_view(r.ip) == ip_of(as_str(first_item(get(*raw, "ip_addrs"@)))),
            r.uptime_secs == as_u64(get(*raw, "uptime"@)),
            r.update_available == as_bool(get(*raw, "update_available"@)),
    {
        let controller_name = match str_of(either_field(raw, "controller_name", "name")) {
            Some(s) => Some(owned(s)),
            None => None,
        };
        let first = match get_field(raw, "ip_addrs") {
            Some(Json::Array(items)) => if items.len() > 0 { Some(&items[0]) } else { None },
            _ => None,
        };
        let ip = match str_of(first) {
            Some(s) => if crate::address::is_ip_text(s) { Some(owned(s)) } else { None },
            None => None,
        };
        SystemInfo {
            controller_name,
            version: text_field_or(raw, "version", "unknown"),
            build: text_field(raw, "build"),
            hostname: text_field(raw, "hostname"),
            ip,
            uptime_secs: u64_of(get_field(raw, "uptime")),
            update_available: bool_of(get_field(raw, "update_available")),
        }
    }
}

// ── Legacy API records ──────────────────────────────────────────────

impl Admin {
    /// An administrator from a `cmd/sitemgr` record.
    pub fn from_record(v: &Json) -> (r: Admin)
        ensures
            r.id@ == EntityIdView::Legacy(text_or(as_str(get(*v, "_id"@)), "unknown"@)),
            r.name@ == text_or(as_str(get(*v, "name"@)), ""@),
            text_view(r.email) == as_str(get(*v, "email"@)),
            r.role@ == text_or(as_str(get(*v, "role"@)), "unknown"@),
            r.is_super == bool_or(as_bool(get(*v, "is_super"@)), false),
    {
        let is_super = match bool_of(get_field(v, "is_super")) {
            Some(b) => b,
            None => false,
        };
        Admin {
            id: EntityId::Legacy(text_field_or(v, "_id", "unknown")),
            name: text_field_or(v, "name", ""),
            email: text_field(v, "email"),
            role: text_field_or(v, "role", "unknown"),
            is_super,
        }
    }
}

/// The texts of the string items of an optional array, when it is one.
pub open spec fn opt_string_items(o: Option<Json>) -> Option<Seq<Seq<char>>> {
    match as_array(o) {
        Some(a) => Some(string_items(a)),
        None => None,
    }
}

/// The view of an optional list of texts.
pub open spec fn opt_texts(o: Option<Vec<String>>) -> Option<Seq<Seq<char>>> {
    match o {
        Some(v) => Some(v@.map_values(|s: String| s@)),
        None => None,
    }
}

impl HealthSummary {
    /// The health of one subsystem from a `stat/health` record, which it
    /// keeps whole as `extra`.
    pub fn from_record(v: Json) -> (r: HealthSummary)
        ensures
            r.subsystem@ == text_or(as_str(get(v, "subsystem"@)), "unknown"@),
            r.status@ == text_or(as_str(get(v, "status"@)), "unknown"@),
            r.num_adopted == truncated_u32(as_u64(get(v, "num_adopted"@))),
            r.num_sta == truncated_u32(as_u64(get(v, "num_sta"@))),
            r.tx_bytes_r == as_u64(get(v, "tx_bytes-r"@)),
            r.rx_bytes_r == as_u64(get(v, "rx_bytes-r"@)),
            text_view(r.wan_ip) == as_str(get(v, "wan_ip"@)),
            opt_texts(r.gateways) == opt_string_items(get(v, "gateways"@)),
            r.extra == v,
    {
        let gateways = match get_field(&v, "gateways") {
            Some(g) => match g {
                Json::Array(_) => Some(string_items_of(Some(g))),
                _ => None,
            },
            None => None,
        };
        HealthSummary {
            subsystem: text_field_or(&v, "subsystem", "unknown"),
            status: text_field_or(&v, "status", "unknown"),
            num_adopted: truncated_u32_of(u64_of(get_field(&v, "num_adopted"))),
            num_sta: truncated_u32_of(u64_of(get_field(&v, "num_sta"))),
            tx_bytes_r: u64_of(get_field(&v, "tx_bytes-r")),
            rx_bytes_r: u64_of(get_field(&v, "rx_bytes-r")),
            wan_ip: text_field(&v, "wan_ip"),
            gateways,
            extra: v,
        }
    }
}

impl SysInfo {
    /// Low-level system information from a `stat/sysinfo` record, which it
    /// keeps whole as `extra`.
    pub fn from_record(raw: Json) -> (r: SysInfo)
        ensures
            text_view(r.timezone) == as_str(get(raw, "timezone"@)),
            r.autobackup == as_bool(get(raw, "autobackup"@)),
            text_view(r.hostname) == as_str(get(raw, "hostname"@)),
            r.ip_addrs@.map_values(|s: String| s@) == string_list(raw, "ip_addrs"@),
            text_view(r.live_chat) == as_str(get(raw, "live_chat"@)),
            r.data_retention_days == truncated_u32(as_u64(get(raw, "data_retention_days"@))),
            r.extra == raw,
    {
        SysInfo {
            timezone: text_field(&raw, "timezone"),
            autobackup: bool_of(get_field(&raw, "autobackup")),
            hostname: text_field(&raw, "hostname"),
            ip_addrs: string_items_of(get_field(&raw, "ip_addrs")),
            live_chat: text_field(&raw, "live_chat"),
            data_retention_days: truncated_u32_of(u64_of(get_field(&raw, "data_retention_days"))),
            extra: raw,
        }
    }
}

} // verus!
