//! Events and alarms as the Legacy API lists them and as the controller's
//! event stream pushes them, mapped to the domain model. Timestamps are
//! RFC 3339 texts, read by `chrono`; an event without a readable one is
//! stamped with the time it is read at.

use vstd::prelude::*;

use crate::convert::{event_category_spec, infer_ws_severity, map_event_category, ws_severity_spec};
use crate::entity_id::{id_from_text, EntityId, EntityIdView, MacAddress};
use crate::integration::{opt_id, opt_string, opt_text, text_or_empty};
use crate::json::{as_str, get, get_field, str_of, Json};
use crate::legacy::{normalized_opt_mac, opt_id_from_text, opt_mac};
use crate::model::{Alarm, DataSource, Event, EventCategory, EventSeverity};
use crate::clock::{now_millis, parse_rfc3339_millis, rfc3339_millis};
use crate::network_record::either;
use vstd::string::StrSliceExecFns;

verus! {

/// The instant of an optional timestamp text, or else `fallback`.
pub open spec fn stamp(datetime: Option<Seq<char>>, fallback: i64) -> i64 {
    match datetime {
        Some(d) => match rfc3339_millis(d) {
            Some(t) => t,
            None => fallback,
        },
        None => fallback,
    }
}

fn stamp_of(datetime: &Option<String>, fallback: i64) -> (r: i64)
    ensures
        r == stamp(opt_string(*datetime), fallback),
{
    match datetime {
        Some(d) => match parse_rfc3339_millis(d.as_str()) {
            Some(t) => t,
            None => fallback,
        },
        None => fallback,
    }
}

fn text_or_empty_of(o: &Option<String>) -> (r: String)
    ensures
        r@ == text_or_empty(opt_string(*o)),
{
    match o {
        Some(s) => s.clone(),
        None => String::new(),
    }
}

fn id_of_opt(o: &Option<String>) -> (r: Option<EntityId>)
    ensures
        opt_id(r) == opt_id_from_text(opt_string(*o)),
{
    match o {
        Some(s) => Some(EntityId::from_text(s.as_str())),
        None => None,
    }
}

// ── Legacy events ───────────────────────────────────────────────────

/// An event record of the Legacy API (`stat/event`).
pub struct LegacyEvent {
    pub id: String,
    pub datetime: Option<String>,
    pub subsystem: Option<String>,
    pub key: Option<String>,
    pub msg: Option<String>,
    pub site_id: Option<String>,
}

/// An alarm record of the Legacy API (`stat/alarm`).
pub struct LegacyAlarm {
    pub id: String,
    pub datetime: Option<String>,
    pub key: Option<String>,
    pub msg: Option<String>,
    pub archived: Option<bool>,
}

impl Event {
    /// The domain event for a Legacy API event record, stamped `now` when
    /// its time cannot be read.
    pub fn from_legacy_at(e: LegacyEvent, now: i64) -> (r: Event)
        ensures
            opt_id(r.id) == Some(id_from_text(e.id@)),
            r.timestamp_millis == stamp(opt_string(e.datetime), now),
            r.category == event_category_spec(opt_string(e.subsystem)),
            r.severity == EventSeverity::Info,
            r.event_type@ == text_or_empty(opt_string(e.key)),
            r.message@ == text_or_empty(opt_string(e.msg)),
            r.device_mac is None,
            r.client_mac is None,
            opt_id(r.site_id) == opt_id_from_text(opt_string(e.site_id)),
            opt_string(r.raw_key) == opt_string(e.key),
            r.source == DataSource::LegacyApi,
    {
        let timestamp_millis = stamp_of(&e.datetime, now);
        let category = map_event_category(e.subsystem.as_ref());
        let event_type = text_or_empty_of(&e.key);
        let message = text_or_empty_of(&e.msg);
        let site_id = id_of_opt(&e.site_id);
        Event {
            id: Some(EntityId::from_text(e.id.as_str())),
            timestamp_millis,
            category,
            severity: EventSeverity::Info,
            event_type,
            message,
            device_mac: None,
            client_mac: None,
            site_id,
            raw_key: e.key,
            source: DataSource::LegacyApi,
        }
    }

    /// The domain event for a Legacy API event record, stamped with the
    /// current time when its own cannot be read.
    pub fn from_legacy(e: LegacyEvent) -> (r: Event)
        ensures
            opt_id(r.id) == Some(id_from_text(e.id@)),
            (match e.datetime {
                Some(d) => rfc3339_millis(d@),
                None => None::<i64>,
            }) matches Some(t) ==> r.timestamp_millis == t,
            r.category == event_category_spec(opt_string(e.subsystem)),
            r.severity == EventSeverity::Info,
            r.event_type@ == text_or_empty(opt_string(e.key)),
            r.message@ == text_or_empty(opt_string(e.msg)),
            opt_id(r.site_id) == opt_id_from_text(opt_string(e.site_id)),
            opt_string(r.raw_key) == opt_string(e.key),
            r.source == DataSource::LegacyApi,
    {
        let now = now_millis();
        Event::from_legacy_at(e, now)
    }

    /// The event an alarm record stands for: a system warning, stamped
    /// `now` when its time cannot be read.
    pub fn from_legacy_alarm_at(a: LegacyAlarm, now: i64) -> (r: Event)
        ensures
            opt_id(r.id) == Some(id_from_text(a.id@)),
            r.timestamp_millis == stamp(opt_string(a.datetime), now),
            r.category == EventCategory::System,
            r.severity == EventSeverity::Warning,
            r.event_type@ == text_or_empty(opt_string(a.key)),
            r.message@ == text_or_empty(opt_string(a.msg)),
            r.device_mac is None,
            r.client_mac is None,
            r.site_id is None,
            opt_string(r.raw_key) == opt_string(a.key),
            r.source == DataSource::LegacyApi,
    {
        let timestamp_millis = stamp_of(&a.datetime, now);
        let event_type = text_or_empty_of(&a.key);
        let message = text_or_empty_of(&a.msg);
        Event {
            id: Some(EntityId::from_text(a.id.as_str())),
            timestamp_millis,
            category: EventCategory::System,
            severity: EventSeverity::Warning,
            event_type,
            message,
            device_mac: None,
            client_mac: None,
            site_id: None,
            raw_key: a.key,
            source: DataSource::LegacyApi,
        }
    }

    /// The event an alarm record stands for, stamped with the current time
    /// when its own cannot be read.
    pub fn from_legacy_alarm(a: LegacyAlarm) -> (r: Event)
        ensures
            opt_id(r.id) == Some(id_from_text(a.id@)),
            (match a.datetime {
                Some(d) => rfc3339_millis(d@),
                None => None::<i64>,
            }) matches Some(t) ==> r.timestamp_millis == t,
            r.category == EventCategory::System,
            r.severity == EventSeverity::Warning,
            r.event_type@ == text_or_empty(opt_string(a.key)),
            r.message@ == text_or_empty(opt_string(a.msg)),
            opt_string(r.raw_key) == opt_string(a.key),
            r.source == DataSource::LegacyApi,
    {
        let now = now_millis();
        Event::from_legacy_alarm_at(a, now)
    }
}

impl Alarm {
    /// The domain alarm for a Legacy API alarm record, stamped `now` when
    /// its time cannot be read.
    pub fn from_legacy_at(a: LegacyAlarm, now: i64) -> (r: Alarm)
        ensures
            r.id@ == id_from_text(a.id@),
            r.timestamp_millis == stamp(opt_string(a.datetime), now),
            r.category == EventCategory::System,
            r.severity == EventSeverity::Warning,
            r.message@ == text_or_empty(opt_string(a.msg)),
            r.archived == (a.archived == Some(true)),
            r.device_mac is None,
            r.site_id is None,
    {
        let timestamp_millis = stamp_of(&a.datetime, now);
        let message = text_or_empty_of(&a.msg);
        let archived = match a.archived {
            Some(b) => b,
            None => false,
        };
        Alarm {
            id: EntityId::from_text(a.id.as_str()),
            timestamp_millis,
            category: EventCategory::System,
            severity: EventSeverity::Warning,
            message,
            archived,
            device_mac: None,
            site_id: None,
        }
    }

    /// The domain alarm for a Legacy API alarm record, stamped with the
    /// current time when its own cannot be read.
    pub fn from_legacy(a: LegacyAlarm) -> (r: Alarm)
        ensures
            r.id@ == id_from_text(a.id@),
            (match a.datetime {
                Some(d) => rfc3339_millis(d@),
                None => None::<i64>,
            }) matches Some(t) ==> r.timestamp_millis == t,
            r.category == EventCategory::System,
            r.severity == EventSeverity::Warning,
            r.message@ == text_or_empty(opt_string(a.msg)),
            r.archived == (a.archived == Some(true)),
            r.device_mac is None,
            r.site_id is None,
    {
        let now = now_millis();
        Alarm::from_legacy_at(a, now)
    }
}

// ── Stream events ───────────────────────────────────────────────────

/// An event pushed by the controller's event stream.
pub struct UnifiEvent {
    pub key: String,
    pub subsystem: String,
    pub site_id: String,
    pub datetime: Option<String>,
    pub message: Option<String>,
    /// The fields that the event has beyond the ones above.
    pub extra: Json,
}

/// The device an event is about: its `mac`, `sw` or `ap` field (the first
/// present), when that is a text.
pub open spec fn event_device_mac(extra: Json) -> Option<Seq<char>> {
    as_str(either(get(extra, "mac"@), either(get(extra, "sw"@), get(extra, "ap"@))))
}

/// The client an event is about: its `user` or `sta` field (the first
/// present), when that is a text.
pub open spec fn event_client_mac(extra: Json) -> Option<Seq<char>> {
    as_str(either(get(extra, "user"@), get(extra, "sta"@)))
}

fn mac_from(o: Option<&str>) -> (r: Option<MacAddress>)
    ensures
        opt_mac(r) == normalized_opt_mac(opt_text(o)),
{
    match o {
        Some(m) => Some(MacAddress::new(m)),
        None => None,
    }
}

impl Event {
    /// The domain event for a stream event: category from its subsystem,
    /// severity from its key, the device and client it names, its site
    /// (none for an empty site id); stamped `now` when its time cannot be
    /// read.
    pub fn from_stream_at(e: UnifiEvent, now: i64) -> (r: Event)
        ensures
            r.id is None,
            r.timestamp_millis == stamp(opt_string(e.datetime), now),
            r.category == event_category_spec(Some(e.subsystem@)),
            r.severity == ws_severity_spec(e.key@),
            r.event_type@ == e.key@,
            r.message@ == text_or_empty(opt_string(e.message)),
            opt_mac(r.device_mac) == normalized_opt_mac(event_device_mac(e.extra)),
            opt_mac(r.client_mac) == normalized_opt_mac(event_client_mac(e.extra)),
            opt_id(r.site_id) == (if e.site_id@.len() == 0 {
                None
            } else {
                Some(EntityIdView::Legacy(e.site_id@))
            }),
            r.raw_key is Some && r.raw_key->0@ == e.key@,
            r.source == DataSource::LegacyApi,
    {
        let category = map_event_category(Some(&e.subsystem));
        let severity = infer_ws_severity(e.key.as_str());
        let device_entry = match get_field(&e.extra, "mac") {
            Some(v) => Some(v),
            None => match get_field(&e.extra, "sw") {
                Some(v) => Some(v),
                None => get_field(&e.extra, "ap"),
            },
        };
        let device_mac = mac_from(str_of(device_entry));
        let client_entry = match get_field(&e.extra, "user") {
            Some(v) => Some(v),
            None => get_field(&e.extra, "sta"),
        };
        let client_mac = mac_from(str_of(client_entry));
        let timestamp_millis = stamp_of(&e.datetime, now);
        let message = text_or_empty_of(&e.message);
        let event_type = e.key.clone();
        let site_id = if e.site_id.as_str().unicode_len() == 0 {
            None
        } else {
            Some(EntityId::Legacy(e.site_id))
        };
        Event {
            id: None,
            timestamp_millis,
            category,
            severity,
            event_type,
            message,
            device_mac,
            client_mac,
            site_id,
            raw_key: Some(e.key),
            source: DataSource::LegacyApi,
        }
    }

    /// The domain event for a stream event, stamped with the current time
    /// when its own cannot be read.
    pub fn from_stream(e: UnifiEvent) -> (r: Event)
        ensures
            r.id is None,
            (match e.datetime {
                Some(d) => rfc3339_millis(d@),
                None => None::<i64>,
            }) matches Some(t) ==> r.timestamp_millis == t,
            r.category == event_category_spec(Some(e.subsystem@)),
            r.severity == ws_severity_spec(e.key@),
            r.event_type@ == e.key@,
            r.message@ == text_or_empty(opt_string(e.message)),
            opt_mac(r.device_mac) == normalized_opt_mac(event_device_mac(e.extra)),
            opt_mac(r.client_mac) == normalized_opt_mac(event_client_mac(e.extra)),
            opt_id(r.site_id) == (if e.site_id@.len() == 0 {
                None
            } else {
                Some(EntityIdView::Legacy(e.site_id@))
            }),
            r.raw_key is Some && r.raw_key->0@ == e.key@,
            r.source == DataSource::LegacyApi,
    {
        let now = now_millis();
        Event::from_stream_at(e, now)
    }
}

} // verus!
