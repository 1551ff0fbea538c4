//! API-to-domain mappings: classification of devices, states, events and
//! origins from the strings and codes that the controller APIs return.

use vstd::prelude::*;

use crate::entity_id::EntityId;
use crate::json::{as_str, get, get_field, str_of, Json};
use crate::model::{
    AclAction, AclRuleType, ClientType, DataSource, DeviceState, DeviceType, DnsPolicyType,
    EntityOrigin, EventCategory, EventSeverity, FirewallAction, FrequencyBand, NetworkManagement, Site,
    WifiBroadcastType, WifiSecurityMode,
};
use vstd::string::StrSliceExecFns;
use crate::text::{contains, has_infix, has_prefix, starts_with, str_eq, to_uppercase, uppercase_of};

verus! {

// ── Device type ─────────────────────────────────────────────────────

/// Gateway hardware by (uppercased) model prefix.
pub open spec fn is_gateway_model(upper: Seq<char>) -> bool {
    has_prefix(upper, "UGW"@) || has_prefix(upper, "UDM"@) || has_prefix(upper, "UDR"@)
        || has_prefix(upper, "UXG"@) || has_prefix(upper, "UCG"@) || has_prefix(upper, "UCK"@)
}

/// Device type from an uppercased model string.
pub open spec fn device_type_from_model(upper: Seq<char>) -> DeviceType {
    if has_prefix(upper, "UAP"@) || has_prefix(upper, "U6"@) || has_prefix(upper, "U7"@) {
        DeviceType::AccessPoint
    } else if has_prefix(upper, "USW"@) || has_prefix(upper, "USL"@) {
        DeviceType::Switch
    } else if is_gateway_model(upper) {
        DeviceType::Gateway
    } else {
        DeviceType::Other
    }
}

/// Device type from the legacy `type` field, falling back to the model.
pub open spec fn device_type_spec(device_type: Seq<char>, model: Option<Seq<char>>) -> DeviceType {
    if device_type == "uap"@ {
        DeviceType::AccessPoint
    } else if device_type == "usw"@ {
        DeviceType::Switch
    } else if device_type == "ugw"@ || device_type == "udm"@ {
        DeviceType::Gateway
    } else {
        match model {
            Some(m) => device_type_from_model(uppercase_of(m)),
            None => DeviceType::Other,
        }
    }
}

fn gateway_model(upper: &str) -> (r: bool)
    ensures
        r == is_gateway_model(upper@),
{
    starts_with(upper, "UGW") || starts_with(upper, "UDM") || starts_with(upper, "UDR")
        || starts_with(upper, "UXG") || starts_with(upper, "UCG") || starts_with(upper, "UCK")
}

fn model_device_type(model: &str) -> (t: DeviceType)
    ensures
        t == device_type_from_model(uppercase_of(model@)),
{
    let upper = to_uppercase(model);
    let u = upper.as_str();
    if starts_with(u, "UAP") || starts_with(u, "U6") || starts_with(u, "U7") {
        DeviceType::AccessPoint
    } else if starts_with(u, "USW") || starts_with(u, "USL") {
        DeviceType::Switch
    } else if gateway_model(u) {
        DeviceType::Gateway
    } else {
        DeviceType::Other
    }
}

/// Device typing ignores the model's letter case: two models with the same
/// uppercase form (std `str::to_uppercase`) give the same type.
pub proof fn lemma_device_type_ignores_model_case(device_type: Seq<char>, a: Seq<char>, b: Seq<char>)
    requires
        uppercase_of(a) == uppercase_of(b),
    ensures
        device_type_spec(device_type, Some(a)) == device_type_spec(device_type, Some(b)),
{
}

/// A device whose `type` field is none of `uap`, `usw`, `ugw`, `udm` and
/// whose model is missing, or has none of the known prefixes once
/// uppercased, is of type `Other`.
pub proof fn lemma_unknown_device_is_other(device_type: Seq<char>, model: Option<Seq<char>>)
    requires
        device_type != "uap"@ && device_type != "usw"@ && device_type != "ugw"@ && device_type != "udm"@,
        model matches Some(m) ==> {
            let u = uppercase_of(m);
            &&& !has_prefix(u, "UAP"@) && !has_prefix(u, "U6"@) && !has_prefix(u, "U7"@)
            &&& !has_prefix(u, "USW"@) && !has_prefix(u, "USL"@)
            &&& !is_gateway_model(u)
        },
    ensures
        device_type_spec(device_type, model) == DeviceType::Other,
{
}

/// Infer `DeviceType` from the legacy `type` field (`uap`, `usw`, `ugw`,
/// `udm`) and, for other values, from the model's prefix.
pub fn infer_device_type(device_type: &str, model: Option<&String>) -> (t: DeviceType)
    ensures
        t == device_type_spec(device_type@, match model {
            Some(m) => Some(m@),
            None => None::<Seq<char>>,
        }),
{
    if str_eq(device_type, "uap") {
        DeviceType::AccessPoint
    } else if str_eq(device_type, "usw") {
        DeviceType::Switch
    } else if str_eq(device_type, "ugw") || str_eq(device_type, "udm") {
        DeviceType::Gateway
    } else {
        match model {
            Some(m) => model_device_type(m.as_str()),
            None => DeviceType::Other,
        }
    }
}

/// Whether a feature list names a feature.
pub open spec fn has_feature(features: Seq<String>, f: Seq<char>) -> bool {
    exists|i: int| 0 <= i < features.len() && #[trigger] features[i]@ == f
}

pub(crate) fn feature_listed(features: &[String], f: &str) -> (r: bool)
    ensures
        r == has_feature(features@, f@),
{
    let mut i: usize = 0;
    while i < features.len()
        invariant
            i <= features.len(),
            forall|j: int| 0 <= j < i ==> #[trigger] features@[j]@ != f@,
        decreases features.len() - i,
    {
        if str_eq(features[i].as_str(), f) {
            return true;
        }
        i = i + 1;
    }
    false
}

/// Device type from the Integration API feature list and model.
pub open spec fn integration_device_type_spec(features: Seq<String>, model: Seq<char>) -> DeviceType {
    if is_gateway_model(uppercase_of(model)) || (has_feature(features, "switching"@)
        && has_feature(features, "routing"@)) || has_feature(features, "gateway"@) {
        DeviceType::Gateway
    } else if has_feature(features, "accessPoint"@) {
        DeviceType::AccessPoint
    } else if has_feature(features, "switching"@) {
        DeviceType::Switch
    } else {
        device_type_spec(""@, Some(model))
    }
}

/// Integration device typing: a device that reports switching, but
/// neither routing, nor the gateway feature, nor an access point, and whose
/// model has no gateway prefix once uppercased, is a switch. A device typed
/// as a gateway has a gateway model, the gateway feature, or both
/// switching and routing; switching or routing alone never makes one.
pub proof fn lemma_integration_switch_and_gateway(features: Seq<String>, model: Seq<char>)
    ensures
        has_feature(features, "switching"@) && !has_feature(features, "routing"@) && !has_feature(
            features,
            "gateway"@,
        ) && !has_feature(features, "accessPoint"@) && !is_gateway_model(uppercase_of(model))
            ==> integration_device_type_spec(features, model) == DeviceType::Switch,
        integration_device_type_spec(features, model) == DeviceType::Gateway ==> is_gateway_model(
            uppercase_of(model),
        ) || has_feature(features, "gateway"@) || (has_feature(features, "switching"@) && has_feature(
            features,
            "routing"@,
        )),
{
    reveal_strlit("");
    reveal_strlit("uap");
    reveal_strlit("usw");
    reveal_strlit("ugw");
    reveal_strlit("udm");
    assert(""@.len() == 0);
    assert(""@ != "uap"@ && ""@ != "usw"@ && ""@ != "ugw"@ && ""@ != "udm"@);
    assert(device_type_spec(""@, Some(model)) == device_type_from_model(uppercase_of(model)));
}

/// Integration device typing reads the model only through its uppercase
/// form, and a gateway model is a gateway whatever features are reported.
pub proof fn lemma_integration_gateway_model(features: Seq<String>, model: Seq<char>, other: Seq<char>)
    ensures
        is_gateway_model(uppercase_of(model)) ==> integration_device_type_spec(features, model)
            == DeviceType::Gateway,
        uppercase_of(model) == uppercase_of(other) ==> integration_device_type_spec(features, model)
            == integration_device_type_spec(features, other),
{
}

/// Infer `DeviceType` from the Integration API `features` list and the
/// model. The model prefix is checked first: some gateways report
/// `switching` without `routing`.
pub fn infer_device_type_integration(features: &[String], model: &str) -> (t: DeviceType)
    ensures
        t == integration_device_type_spec(features@, model@),
{
    let upper = to_uppercase(model);
    if gateway_model(upper.as_str()) || (feature_listed(features, "switching") && feature_listed(
        features,
        "routing",
    )) || feature_listed(features, "gateway") {
        DeviceType::Gateway
    } else if feature_listed(features, "accessPoint") {
        DeviceType::AccessPoint
    } else if feature_listed(features, "switching") {
        DeviceType::Switch
    } else {
        let model_owned = crate::text::owned(model);
        infer_device_type("", Some(&model_owned))
    }
}

// ── Device state ────────────────────────────────────────────────────

/// Device state from the legacy integer code.
pub open spec fn device_state_spec(code: i32) -> DeviceState {
    if code == 0 {
        DeviceState::Offline
    } else if code == 1 {
        DeviceState::Online
    } else if code == 2 {
        DeviceState::PendingAdoption
    } else if code == 4 {
        DeviceState::Updating
    } else if code == 5 {
        DeviceState::GettingReady
    } else {
        DeviceState::Unknown
    }
}

/// Map the legacy integer state code to `DeviceState`
/// (0 offline, 1 online, 2 pending adoption, 4 upgrading, 5 provisioning).
pub fn map_device_state(code: i32) -> (s: DeviceState)
    ensures
        s == device_state_spec(code),
{
    match code {
        0 => DeviceState::Offline,
        1 => DeviceState::Online,
        2 => DeviceState::PendingAdoption,
        4 => DeviceState::Updating,
        5 => DeviceState::GettingReady,
        _ => DeviceState::Unknown,
    }
}

/// Device state from the Integration API state string.
pub open spec fn integration_device_state_spec(state: Seq<char>) -> DeviceState {
    if state == "ONLINE"@ {
        DeviceState::Online
    } else if state == "OFFLINE"@ {
        DeviceState::Offline
    } else if state == "PENDING_ADOPTION"@ {
        DeviceState::PendingAdoption
    } else if state == "UPDATING"@ {
        DeviceState::Updating
    } else if state == "GETTING_READY"@ {
        DeviceState::GettingReady
    } else if state == "ADOPTING"@ {
        DeviceState::Adopting
    } else if state == "DELETING"@ {
        DeviceState::Deleting
    } else if state == "CONNECTION_INTERRUPTED"@ {
        DeviceState::ConnectionInterrupted
    } else if state == "ISOLATED"@ {
        DeviceState::Isolated
    } else {
        DeviceState::Unknown
    }
}

/// Map the Integration API device state string to `DeviceState`.
pub fn map_integration_device_state(state: &str) -> (s: DeviceState)
    ensures
        s == integration_device_state_spec(state@),
{
    if str_eq(state, "ONLINE") {
        DeviceState::Online
    } else if str_eq(state, "OFFLINE") {
        DeviceState::Offline
    } else if str_eq(state, "PENDING_ADOPTION") {
        DeviceState::PendingAdoption
    } else if str_eq(state, "UPDATING") {
        DeviceState::Updating
    } else if str_eq(state, "GETTING_READY") {
        DeviceState::GettingReady
    } else if str_eq(state, "ADOPTING") {
        DeviceState::Adopting
    } else if str_eq(state, "DELETING") {
        DeviceState::Deleting
    } else if str_eq(state, "CONNECTION_INTERRUPTED") {
        DeviceState::ConnectionInterrupted
    } else if str_eq(state, "ISOLATED") {
        DeviceState::Isolated
    } else {
        DeviceState::Unknown
    }
}

// ── Events ──────────────────────────────────────────────────────────

/// Event category from the legacy subsystem string.
pub open spec fn event_category_spec(subsystem: Option<Seq<char>>) -> EventCategory {
    match subsystem {
        Some(s) => if s == "wlan"@ || s == "lan"@ || s == "wan"@ {
            EventCategory::Network
        } else if s == "device"@ {
            EventCategory::Device
        } else if s == "client"@ {
            EventCategory::Client
        } else if s == "system"@ {
            EventCategory::System
        } else if s == "admin"@ {
            EventCategory::Admin
        } else if s == "firewall"@ {
            EventCategory::Firewall
        } else if s == "vpn"@ {
            EventCategory::Vpn
        } else {
            EventCategory::Unknown
        },
        None => EventCategory::Unknown,
    }
}

/// Event categories: the subsystems `wlan`, `lan` and `wan` (and no
/// other) are network events; the other known subsystems each have their
/// own category, and an unknown or missing subsystem is `Unknown`.
pub proof fn lemma_event_category_subsystems(s: Seq<char>)
    ensures
        event_category_spec(Some(s)) == EventCategory::Network <==> (s == "wlan"@ || s == "lan"@ || s
            == "wan"@),
        event_category_spec(Some("wlan"@)) == event_category_spec(Some("lan"@)),
        event_category_spec(Some("lan"@)) == event_category_spec(Some("wan"@)),
        event_category_spec(Some(s)) == EventCategory::Unknown <==> !(s == "wlan"@ || s == "lan"@ || s
            == "wan"@ || s == "device"@ || s == "client"@ || s == "system"@ || s == "admin"@ || s
            == "firewall"@ || s == "vpn"@),
        event_category_spec(None) == EventCategory::Unknown,
        s == "device"@ ==> event_category_spec(Some(s)) == EventCategory::Device,
        s == "client"@ ==> event_category_spec(Some(s)) == EventCategory::Client,
        s == "system"@ ==> event_category_spec(Some(s)) == EventCategory::System,
        s == "admin"@ ==> event_category_spec(Some(s)) == EventCategory::Admin,
        s == "firewall"@ ==> event_category_spec(Some(s)) == EventCategory::Firewall,
        s == "vpn"@ ==> event_category_spec(Some(s)) == EventCategory::Vpn,
{
    reveal_strlit("wlan");
    reveal_strlit("lan");
    reveal_strlit("wan");
    reveal_strlit("device");
    reveal_strlit("client");
    reveal_strlit("system");
    reveal_strlit("admin");
    reveal_strlit("firewall");
    reveal_strlit("vpn");
    assert("wlan"@.len() == 4 && "lan"@.len() == 3 && "wan"@.len() == 3 && "vpn"@.len() == 3);
    assert("device"@.len() == 6 && "client"@.len() == 6 && "system"@.len() == 6);
    assert("device"@[0] != "client"@[0] && "device"@[0] != "system"@[0] && "client"@[0] != "system"@[0]);
    assert("vpn"@[0] != "lan"@[0] && "vpn"@[0] != "wan"@[0]);
    assert("device"@ != "wlan"@ && "device"@ != "lan"@ && "device"@ != "wan"@);
    assert("client"@ != "wlan"@ && "client"@ != "lan"@ && "client"@ != "wan"@ && "client"@ != "device"@);
    assert("system"@ != "wlan"@ && "system"@ != "lan"@ && "system"@ != "wan"@ && "system"@ != "device"@
        && "system"@ != "client"@);
    assert("vpn"@ != "lan"@ && "vpn"@ != "wan"@);
    assert("firewall"@.len() == 8 && "admin"@.len() == 5);
    assert("firewall"@ != "wlan"@ && "firewall"@ != "lan"@ && "firewall"@ != "wan"@ && "firewall"@
        != "device"@ && "firewall"@ != "client"@ && "firewall"@ != "system"@ && "firewall"@ != "admin"@);
}

/// Map the legacy subsystem string to `EventCategory`.
pub fn map_event_category(subsystem: Option<&String>) -> (c: EventCategory)
    ensures
        c == event_category_spec(match subsystem {
            Some(s) => Some(s@),
            None => None::<Seq<char>>,
        }),
{
    match subsystem {
        Some(s) => {
            let s = s.as_str();
            if str_eq(s, "wlan") || str_eq(s, "lan") || str_eq(s, "wan") {
                EventCategory::Network
            } else if str_eq(s, "device") {
                EventCategory::Device
            } else if str_eq(s, "client") {
                EventCategory::Client
            } else if str_eq(s, "system") {
                EventCategory::System
            } else if str_eq(s, "admin") {
                EventCategory::Admin
            } else if str_eq(s, "firewall") {
                EventCategory::Firewall
            } else if str_eq(s, "vpn") {
                EventCategory::Vpn
            } else {
                EventCategory::Unknown
            }
        },
        None => EventCategory::Unknown,
    }
}

/// Severity of a WebSocket event from its key: error/fail words give
/// `Error`, disconnect/lost/down give `Warning`, anything else `Info`
/// (matched on the uppercased key).
pub open spec fn ws_severity_spec(key: Seq<char>) -> EventSeverity {
    let upper = uppercase_of(key);
    if has_infix(upper, "ERROR"@) || has_infix(upper, "FAIL"@) {
        EventSeverity::Error
    } else if has_infix(upper, "DISCONNECT"@) || has_infix(upper, "LOST"@) || has_infix(upper, "DOWN"@) {
        EventSeverity::Warning
    } else {
        EventSeverity::Info
    }
}

/// Infer severity from a WebSocket event key.
pub fn infer_ws_severity(key: &str) -> (s: EventSeverity)
    ensures
        s == ws_severity_spec(key@),
{
    let upper = to_uppercase(key);
    let u = upper.as_str();
    if contains(u, "ERROR") || contains(u, "FAIL") {
        EventSeverity::Error
    } else if contains(u, "DISCONNECT") || contains(u, "LOST") || contains(u, "DOWN") {
        EventSeverity::Warning
    } else {
        EventSeverity::Info
    }
}

// ── Radio channels ──────────────────────────────────────────────────

/// The band of a WiFi channel: 1-14 are 2.4 GHz, 32-68 and 96-177 are
/// 5 GHz, every other number is taken for 6 GHz.
pub open spec fn channel_band_spec(channel: i32) -> FrequencyBand {
    if 1 <= channel <= 14 {
        FrequencyBand::Ghz2_4
    } else if (32 <= channel <= 68) || (96 <= channel <= 177) {
        FrequencyBand::Ghz5
    } else {
        FrequencyBand::Ghz6
    }
}

/// The band of an optional WiFi channel (see `channel_band_spec`).
pub fn channel_band(channel: Option<i32>) -> (b: Option<FrequencyBand>)
    ensures
        b == match channel {
            Some(c) => Some(channel_band_spec(c)),
            None => None,
        },
{
    match channel {
        Some(c) => Some(if 1 <= c && c <= 14 {
            FrequencyBand::Ghz2_4
        } else if (32 <= c && c <= 68) || (96 <= c && c <= 177) {
            FrequencyBand::Ghz5
        } else {
            FrequencyBand::Ghz6
        }),
        None => None,
    }
}

// ── Origins and Integration API enums ───────────────────────────────

/// Origin from the Integration API management string.
pub open spec fn origin_spec(management: Seq<char>) -> Option<EntityOrigin> {
    if management == "USER_DEFINED"@ {
        Some(EntityOrigin::UserDefined)
    } else if management == "SYSTEM_DEFINED"@ {
        Some(EntityOrigin::SystemDefined)
    } else if management == "ORCHESTRATED"@ {
        Some(EntityOrigin::Orchestrated)
    } else {
        None
    }
}

/// Map the Integration API management string to `EntityOrigin`.
pub fn map_origin(management: &str) -> (o: Option<EntityOrigin>)
    ensures
        o == origin_spec(management@),
{
    if str_eq(management, "USER_DEFINED") {
        Some(EntityOrigin::UserDefined)
    } else if str_eq(management, "SYSTEM_DEFINED") {
        Some(EntityOrigin::SystemDefined)
    } else if str_eq(management, "ORCHESTRATED") {
        Some(EntityOrigin::Orchestrated)
    } else {
        None
    }
}

/// The origin an entity's metadata records: its `origin` entry when it has
/// one, else its `management` entry (the name differs by firmware), read as
/// a string.
pub open spec fn metadata_origin(metadata: Json) -> Option<EntityOrigin> {
    let entry = match get(metadata, "origin"@) {
        Some(v) => Some(v),
        None => get(metadata, "management"@),
    };
    match as_str(entry) {
        Some(s) => origin_spec(s),
        None => None,
    }
}

/// Origin read from an entity's `metadata` object.
pub fn origin_from_metadata(metadata: &Json) -> (o: Option<EntityOrigin>)
    ensures
        o == metadata_origin(*metadata),
{
    let entry = match get_field(metadata, "origin") {
        Some(v) => Some(v),
        None => get_field(metadata, "management"),
    };
    match str_of(entry) {
        Some(s) => map_origin(s),
        None => None,
    }
}

/// Client type from the Integration API type string.
pub open spec fn client_type_spec(t: Seq<char>) -> ClientType {
    if t == "WIRED"@ {
        ClientType::Wired
    } else if t == "WIRELESS"@ {
        ClientType::Wireless
    } else if t == "VPN"@ {
        ClientType::Vpn
    } else if t == "TELEPORT"@ {
        ClientType::Teleport
    } else {
        ClientType::Unknown
    }
}

/// Map the Integration API client type string to `ClientType`.
pub fn map_client_type(t: &str) -> (c: ClientType)
    ensures
        c == client_type_spec(t@),
{
    if str_eq(t, "WIRED") {
        ClientType::Wired
    } else if str_eq(t, "WIRELESS") {
        ClientType::Wireless
    } else if str_eq(t, "VPN") {
        ClientType::Vpn
    } else if str_eq(t, "TELEPORT") {
        ClientType::Teleport
    } else {
        ClientType::Unknown
    }
}

/// Broadcast type from the Integration API string.
pub fn map_wifi_broadcast_type(t: &str) -> (b: WifiBroadcastType)
    ensures
        b == (if t@ == "IOT_OPTIMIZED"@ { WifiBroadcastType::IotOptimized } else { WifiBroadcastType::Standard }),
{
    if str_eq(t, "IOT_OPTIMIZED") {
        WifiBroadcastType::IotOptimized
    } else {
        WifiBroadcastType::Standard
    }
}

/// Security mode from the Integration API security configuration `mode`.
pub open spec fn security_mode_spec(mode: Option<Seq<char>>) -> WifiSecurityMode {
    match mode {
        None => WifiSecurityMode::Open,
        Some(m) => if m == "WPA2_PERSONAL"@ {
            WifiSecurityMode::Wpa2Personal
        } else if m == "WPA3_PERSONAL"@ {
            WifiSecurityMode::Wpa3Personal
        } else if m == "WPA2_WPA3_PERSONAL"@ {
            WifiSecurityMode::Wpa2Wpa3Personal
        } else if m == "WPA2_ENTERPRISE"@ {
            WifiSecurityMode::Wpa2Enterprise
        } else if m == "WPA3_ENTERPRISE"@ {
            WifiSecurityMode::Wpa3Enterprise
        } else if m == "WPA2_WPA3_ENTERPRISE"@ {
            WifiSecurityMode::Wpa2Wpa3Enterprise
        } else {
            WifiSecurityMode::Open
        },
    }
}

/// Map the security configuration `mode` string (absent: open).
pub fn map_security_mode(mode: Option<&str>) -> (s: WifiSecurityMode)
    ensures
        s == security_mode_spec(match mode {
            Some(m) => Some(m@),
            None => None::<Seq<char>>,
        }),
{
    match mode {
        None => WifiSecurityMode::Open,
        Some(m) => if str_eq(m, "WPA2_PERSONAL") {
            WifiSecurityMode::Wpa2Personal
        } else if str_eq(m, "WPA3_PERSONAL") {
            WifiSecurityMode::Wpa3Personal
        } else if str_eq(m, "WPA2_WPA3_PERSONAL") {
            WifiSecurityMode::Wpa2Wpa3Personal
        } else if str_eq(m, "WPA2_ENTERPRISE") {
            WifiSecurityMode::Wpa2Enterprise
        } else if str_eq(m, "WPA3_ENTERPRISE") {
            WifiSecurityMode::Wpa3Enterprise
        } else if str_eq(m, "WPA2_WPA3_ENTERPRISE") {
            WifiSecurityMode::Wpa2Wpa3Enterprise
        } else {
            WifiSecurityMode::Open
        },
    }
}

/// Firewall action from the policy's `action.type` (absent: block).
pub fn map_firewall_action(action: Option<&str>) -> (a: FirewallAction)
    ensures
        a == match action {
            Some(s) => if s@ == "ALLOW"@ {
                FirewallAction::Allow
            } else if s@ == "REJECT"@ {
                FirewallAction::Reject
            } else {
                FirewallAction::Block
            },
            None => FirewallAction::Block,
        },
{
    match action {
        Some(s) => if str_eq(s, "ALLOW") {
            FirewallAction::Allow
        } else if str_eq(s, "REJECT") {
            FirewallAction::Reject
        } else {
            FirewallAction::Block
        },
        None => FirewallAction::Block,
    }
}

/// ACL rule type and action from the Integration API strings.
pub fn map_acl_rule(rule_type: &str, action: &str) -> (r: (AclRuleType, AclAction))
    ensures
        r.0 == (if rule_type@ == "MAC"@ { AclRuleType::Mac } else { AclRuleType::Ipv4 }),
        r.1 == (if action@ == "ALLOW"@ { AclAction::Allow } else { AclAction::Block }),
{
    let t = if str_eq(rule_type, "MAC") { AclRuleType::Mac } else { AclRuleType::Ipv4 };
    let a = if str_eq(action, "ALLOW") { AclAction::Allow } else { AclAction::Block };
    (t, a)
}

/// DNS policy type from the Integration API type string.
pub open spec fn dns_policy_type_spec(t: Seq<char>) -> DnsPolicyType {
    if t == "A"@ {
        DnsPolicyType::ARecord
    } else if t == "AAAA"@ {
        DnsPolicyType::AaaaRecord
    } else if t == "CNAME"@ {
        DnsPolicyType::CnameRecord
    } else if t == "MX"@ {
        DnsPolicyType::MxRecord
    } else if t == "TXT"@ {
        DnsPolicyType::TxtRecord
    } else if t == "SRV"@ {
        DnsPolicyType::SrvRecord
    } else {
        DnsPolicyType::ForwardDomain
    }
}

/// Map the Integration API DNS policy type string.
pub fn map_dns_policy_type(t: &str) -> (d: DnsPolicyType)
    ensures
        d == dns_policy_type_spec(t@),
{
    if str_eq(t, "A") {
        DnsPolicyType::ARecord
    } else if str_eq(t, "AAAA") {
        DnsPolicyType::AaaaRecord
    } else if str_eq(t, "CNAME") {
        DnsPolicyType::CnameRecord
    } else if str_eq(t, "MX") {
        DnsPolicyType::MxRecord
    } else if str_eq(t, "TXT") {
        DnsPolicyType::TxtRecord
    } else if str_eq(t, "SRV") {
        DnsPolicyType::SrvRecord
    } else {
        DnsPolicyType::ForwardDomain
    }
}

/// Network management type inferred from the presence of an IPv4
/// configuration and of a `deviceId` field.
pub fn infer_network_management(has_ipv4_config: bool, has_device_id: bool) -> (m: Option<NetworkManagement>)
    ensures
        m == (if has_ipv4_config && !has_device_id {
            Some(NetworkManagement::Gateway)
        } else if has_device_id {
            Some(NetworkManagement::Switch)
        } else if has_ipv4_config {
            Some(NetworkManagement::Gateway)
        } else {
            None
        }),
{
    if has_ipv4_config && !has_device_id {
        Some(NetworkManagement::Gateway)
    } else if has_device_id {
        Some(NetworkManagement::Switch)
    } else if has_ipv4_config {
        Some(NetworkManagement::Gateway)
    } else {
        None
    }
}

// ── Sites ───────────────────────────────────────────────────────────

/// A site record from the Legacy API.
pub struct LegacySite {
    pub id: String,
    pub name: String,
    pub desc: Option<String>,
    pub role: Option<String>,
}

/// Display name of a legacy site: its description when non-empty,
/// otherwise its internal name.
pub open spec fn site_display_name(name: Seq<char>, desc: Option<Seq<char>>) -> Seq<char> {
    match desc {
        Some(d) => if d.len() > 0 { d } else { name },
        None => name,
    }
}

impl Site {
    /// Convert a legacy site record: `desc` (the human label) becomes the
    /// display name unless empty; `name` is kept as the internal name.
    pub fn from_legacy(s: LegacySite) -> (site: Site)
        ensures
            site.id@ == crate::entity_id::id_from_text(s.id@),
            site.internal_name@ == s.name@,
            site.name@ == site_display_name(s.name@, match s.desc {
                Some(d) => Some(d@),
                None => None::<Seq<char>>,
            }),
            site.device_count is None,
            site.client_count is None,
            site.source == DataSource::LegacyApi,
    {
        let display_name = match &s.desc {
            Some(d) => if d.as_str().unicode_len() > 0 { d.clone() } else { s.name.clone() },
            None => s.name.clone(),
        };
        Site {
            id: EntityId::from_text(s.id.as_str()),
            internal_name: s.name,
            name: display_name,
            device_count: None,
            client_count: None,
            source: DataSource::LegacyApi,
        }
    }
}

} // verus!
