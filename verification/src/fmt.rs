//! Human-readable duration and flag formatting.

use vstd::prelude::*;

use crate::text::{concat, decimal, decimal_with_suffix, owned};

verus! {

/// Text of a compact uptime: whole days if any (`47d`), else hours and
/// minutes (`4h 23m`) if any hour, else minutes (`12m`).
pub open spec fn uptime_text(secs: nat) -> Seq<char> {
    let days = secs / 86400;
    let hours = (secs % 86400) / 3600;
    let minutes = (secs % 3600) / 60;
    if days > 0 {
        decimal(days) + "d"@
    } else if hours > 0 {
        decimal(hours) + "h "@ + decimal(minutes) + "m"@
    } else {
        decimal(minutes) + "m"@
    }
}

/// Format seconds into a compact human duration.
pub fn fmt_uptime(secs: u64) -> (s: String)
    ensures
        s@ == uptime_text(secs as nat),
{
    let days = secs / 86400;
    let hours = (secs % 86400) / 3600;
    let minutes = (secs % 3600) / 60;
    if days > 0 {
        decimal_with_suffix(days, "d")
    } else if hours > 0 {
        let h = decimal_with_suffix(hours, "h ");
        let m = decimal_with_suffix(minutes, "m");
        concat(h.as_str(), m.as_str())
    } else {
        decimal_with_suffix(minutes, "m")
    }
}

/// Text of a DHCP lease time: the largest unit (days, hours, minutes)
/// that divides it exactly, else seconds.
pub open spec fn lease_time_text(secs: nat) -> Seq<char> {
    if secs >= 86400 && secs % 86400 == 0 {
        decimal(secs / 86400) + "d"@
    } else if secs >= 3600 && secs % 3600 == 0 {
        decimal(secs / 3600) + "h"@
    } else if secs >= 60 && secs % 60 == 0 {
        decimal(secs / 60) + "m"@
    } else {
        decimal(secs) + "s"@
    }
}

/// Format a DHCP lease time.
pub fn format_lease_time(secs: u64) -> (s: String)
    ensures
        s@ == lease_time_text(secs as nat),
{
    if secs >= 86400 && secs % 86400 == 0 {
        decimal_with_suffix(secs / 86400, "d")
    } else if secs >= 3600 && secs % 3600 == 0 {
        decimal_with_suffix(secs / 3600, "h")
    } else if secs >= 60 && secs % 60 == 0 {
        decimal_with_suffix(secs / 60, "m")
    } else {
        decimal_with_suffix(secs, "s")
    }
}

/// `Enabled` or `Disabled`.
pub fn bool_label(v: bool) -> (s: String)
    ensures
        s@ == (if v { "Enabled"@ } else { "Disabled"@ }),
{
    if v { owned("Enabled") } else { owned("Disabled") }
}

/// Text of the data age in a title bar, from the seconds elapsed since the
/// last update (none: no data yet).
pub open spec fn data_age_text(elapsed_secs: Option<u64>) -> Seq<char> {
    match elapsed_secs {
        None => "no data"@,
        Some(secs) => if secs < 5 {
            "just now"@
        } else if secs < 60 {
            decimal(secs as nat) + "s ago"@
        } else {
            decimal((secs / 60) as nat) + "m ago"@
        },
    }
}

/// Format the data age for the title bar.
pub fn refresh_age_str(elapsed_secs: Option<u64>) -> (s: String)
    ensures
        s@ == data_age_text(elapsed_secs),
{
    match elapsed_secs {
        None => owned("no data"),
        Some(secs) => if secs < 5 {
            owned("just now")
        } else if secs < 60 {
            decimal_with_suffix(secs, "s ago")
        } else {
            decimal_with_suffix(secs / 60, "m ago")
        },
    }
}

} // verus!
