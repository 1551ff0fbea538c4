//! The texts of a network's detail panel: each configuration row as a
//! label and its value, in display order.

use vstd::prelude::*;

use crate::fmt::{bool_label, format_lease_time, lease_time_text};
use crate::model::{DhcpConfig, Ipv6Mode, Network, NetworkManagement};
use crate::text::{concat, decimal, owned, u64_to_string};

verus! {

/// A missing value is shown as an em dash.
pub open spec fn text_or_dash(t: Option<String>) -> Seq<char> {
    match t {
        Some(s) => s@,
        None => "—"@,
    }
}

/// A missing range bound is shown as a question mark.
pub open spec fn text_or_unknown(t: Option<String>) -> Seq<char> {
    match t {
        Some(s) => s@,
        None => "?"@,
    }
}

/// The name of a management mode.
pub open spec fn management_name(m: NetworkManagement) -> Seq<char> {
    match m {
        NetworkManagement::Gateway => "Gateway"@,
        NetworkManagement::Switch => "Switch"@,
        NetworkManagement::Unmanaged => "Unmanaged"@,
    }
}

/// The name of an IPv6 mode.
pub open spec fn ipv6_mode_name(m: Ipv6Mode) -> Seq<char> {
    match m {
        Ipv6Mode::PrefixDelegation => "PrefixDelegation"@,
        Ipv6Mode::Static => "Static"@,
    }
}

/// `Enabled` or `Disabled`.
pub open spec fn on_off(v: bool) -> Seq<char> {
    if v { "Enabled"@ } else { "Disabled"@ }
}

/// The texts joined with `sep` between each two.
pub open spec fn joined(items: Seq<String>, sep: Seq<char>) -> Seq<char>
    decreases items.len(),
{
    if items.len() == 0 {
        Seq::empty()
    } else if items.len() == 1 {
        items[0]@
    } else {
        joined(items.drop_last(), sep) + sep + items.last()@
    }
}

/// The DHCP state: a dash without DHCP configuration, else whether the
/// server is enabled.
pub open spec fn dhcp_state_text(d: Option<DhcpConfig>) -> Seq<char> {
    match d {
        Some(c) => on_off(c.enabled),
        None => "—"@,
    }
}

/// The IPv6 text: `Disabled`, else the mode, else `Enabled`.
pub open spec fn ipv6_text(n: Network) -> Seq<char> {
    if !n.ipv6_enabled {
        "Disabled"@
    } else {
        match n.ipv6_mode {
            Some(m) => ipv6_mode_name(m),
            None => "Enabled"@,
        }
    }
}

/// The lease time row, present when the DHCP configuration gives one.
pub open spec fn lease_rows(d: Option<DhcpConfig>) -> Seq<(Seq<char>, Seq<char>)> {
    match d {
        Some(c) => match c.lease_time_secs {
            Some(s) => seq![("Lease Time"@, lease_time_text(s as nat))],
            None => Seq::empty(),
        },
        None => Seq::empty(),
    }
}

/// The address range row, present while the DHCP server is enabled.
pub open spec fn range_rows(d: Option<DhcpConfig>) -> Seq<(Seq<char>, Seq<char>)> {
    match d {
        Some(c) => if c.enabled {
            seq![("Range"@, text_or_unknown(c.range_start) + " — "@ + text_or_unknown(c.range_stop))]
        } else {
            Seq::empty()
        },
        None => Seq::empty(),
    }
}

/// The DNS row, present when the DHCP configuration lists DNS servers.
pub open spec fn dns_rows(d: Option<DhcpConfig>) -> Seq<(Seq<char>, Seq<char>)> {
    match d {
        Some(c) => if c.dns_servers@.len() > 0 {
            seq![("DNS"@, joined(c.dns_servers@, ", "@))]
        } else {
            Seq::empty()
        },
        None => Seq::empty(),
    }
}

/// The addressing rows: gateway, VLAN, subnet, management mode and DHCP
/// state, a dash for each that is missing.
pub open spec fn address_rows(n: Network) -> Seq<(Seq<char>, Seq<char>)> {
    seq![
        ("Gateway IP"@, text_or_dash(n.gateway_ip)),
        ("VLAN"@, match n.vlan_id {
            Some(v) => decimal(v as nat),
            None => "—"@,
        }),
        ("Subnet"@, text_or_dash(n.subnet)),
        ("Management"@, match n.management {
            Some(m) => management_name(m),
            None => "—"@,
        }),
        ("DHCP"@, dhcp_state_text(n.dhcp)),
    ]
}

/// The feature rows: internet access, isolation, mDNS forwarding, IPv6 and
/// cellular backup.
pub open spec fn feature_rows(n: Network) -> Seq<(Seq<char>, Seq<char>)> {
    seq![
        ("Internet"@, on_off(n.internet_access_enabled)),
        ("Isolation"@, on_off(n.isolation_enabled)),
        ("mDNS Fwd"@, on_off(n.mdns_forwarding_enabled)),
        ("IPv6"@, ipv6_text(n)),
        ("Cellular BU"@, on_off(n.cellular_backup_enabled)),
    ]
}

/// The detail rows of a network, in display order: addressing and VLAN,
/// the DHCP server, then the feature flags.
pub open spec fn network_detail_spec(n: Network) -> Seq<(Seq<char>, Seq<char>)> {
    address_rows(n) + lease_rows(n.dhcp) + range_rows(n.dhcp) + dns_rows(n.dhcp) + feature_rows(n)
}

/// The rows as texts.
pub open spec fn rows_view(v: Seq<(String, String)>) -> Seq<(Seq<char>, Seq<char>)> {
    v.map_values(|p: (String, String)| (p.0@, p.1@))
}

fn push_row(rows: &mut Vec<(String, String)>, label: &str, value: String)
    ensures
        rows_view(final(rows)@) == rows_view(old(rows)@).push((label@, value@)),
{
    let ghost before = rows@;
    rows.push((owned(label), value));
    assert(rows_view(rows@) =~= rows_view(before).push((label@, value@)));
}

fn text_or(t: &Option<String>, missing: &str) -> (s: String)
    ensures
        s@ == match t {
            Some(v) => v@,
            None => missing@,
        },
{
    match t {
        Some(v) => owned(v.as_str()),
        None => owned(missing),
    }
}

/// The texts joined with `sep` between each two.
pub fn join_texts(items: &Vec<String>, sep: &str) -> (s: String)
    ensures
        s@ == joined(items@, sep@),
{
    let mut out = owned("");
    proof {
        reveal_strlit("");
        assert(items@.subrange(0, 0) =~= Seq::<String>::empty());
    }
    let mut i: usize = 0;
    while i < items.len()
        invariant
            i <= items@.len(),
            out@ == joined(items@.subrange(0, i as int), sep@),
        decreases items.len() - i,
    {
        let ghost prefix = items@.subrange(0, i + 1);
        assert(prefix.drop_last() =~= items@.subrange(0, i as int));
        if i == 0 {
            out = owned(items[i].as_str());
        } else {
            let with_sep = concat(out.as_str(), sep);
            out = concat(with_sep.as_str(), items[i].as_str());
        }
        i = i + 1;
    }
    assert(items@.subrange(0, items@.len() as int) =~= items@);
    out
}

fn push_address_rows(rows: &mut Vec<(String, String)>, n: &Network)
    ensures
        rows_view(final(rows)@) == rows_view(old(rows)@) + address_rows(*n),
{
    let ghost r0 = rows_view(rows@);
    push_row(rows, "Gateway IP", text_or(&n.gateway_ip, "—"));
    let vlan = match n.vlan_id {
        Some(v) => u64_to_string(v as u64),
        None => owned("—"),
    };
    push_row(rows, "VLAN", vlan);
    push_row(rows, "Subnet", text_or(&n.subnet, "—"));
    let management = match n.management {
        Some(NetworkManagement::Gateway) => owned("Gateway"),
        Some(NetworkManagement::Switch) => owned("Switch"),
        Some(NetworkManagement::Unmanaged) => owned("Unmanaged"),
        None => owned("—"),
    };
    push_row(rows, "Management", management);
    let state = match &n.dhcp {
        Some(d) => bool_label(d.enabled),
        None => owned("—"),
    };
    push_row(rows, "DHCP", state);
    assert(rows_view(rows@) =~= r0 + address_rows(*n));
}

fn push_dhcp_rows(rows: &mut Vec<(String, String)>, dhcp: &Option<DhcpConfig>)
    ensures
        rows_view(final(rows)@) == rows_view(old(rows)@) + lease_rows(*dhcp) + range_rows(*dhcp) + dns_rows(
            *dhcp,
        ),
{
    let ghost head = rows_view(rows@);
    if let Some(d) = dhcp {
        if let Some(s) = d.lease_time_secs {
            push_row(rows, "Lease Time", format_lease_time(s));
        }
    }
    let ghost with_lease = rows_view(rows@);
    assert(with_lease =~= head + lease_rows(*dhcp));
    if let Some(d) = dhcp {
        if d.enabled {
            let start = text_or(&d.range_start, "?");
            let stop = text_or(&d.range_stop, "?");
            let left = concat(start.as_str(), " — ");
            push_row(rows, "Range", concat(left.as_str(), stop.as_str()));
        }
    }
    let ghost with_range = rows_view(rows@);
    assert(with_range =~= with_lease + range_rows(*dhcp));
    if let Some(d) = dhcp {
        if d.dns_servers.len() > 0 {
            push_row(rows, "DNS", join_texts(&d.dns_servers, ", "));
        }
    }
    assert(rows_view(rows@) =~= with_range + dns_rows(*dhcp));
}

fn push_feature_rows(rows: &mut Vec<(String, String)>, n: &Network)
    ensures
        rows_view(final(rows)@) == rows_view(old(rows)@) + feature_rows(*n),
{
    let ghost r0 = rows_view(rows@);
    push_row(rows, "Internet", bool_label(n.internet_access_enabled));
    push_row(rows, "Isolation", bool_label(n.isolation_enabled));
    push_row(rows, "mDNS Fwd", bool_label(n.mdns_forwarding_enabled));
    let ipv6 = if !n.ipv6_enabled {
        owned("Disabled")
    } else {
        match n.ipv6_mode {
            Some(Ipv6Mode::PrefixDelegation) => owned("PrefixDelegation"),
            Some(Ipv6Mode::Static) => owned("Static"),
            None => owned("Enabled"),
        }
    };
    push_row(rows, "IPv6", ipv6);
    push_row(rows, "Cellular BU", bool_label(n.cellular_backup_enabled));
    assert(rows_view(rows@) =~= r0 + feature_rows(*n));
}

/// The detail rows of a network (label, value), in display order.
pub fn network_detail_lines(n: &Network) -> (lines: Vec<(String, String)>)
    ensures
        lines@.len() == network_detail_spec(*n).len(),
        forall|i: int| 0 <= i < lines@.len() ==> (#[trigger] lines@[i].0@, lines@[i].1@) == network_detail_spec(*n)[i],
{
    let mut rows: Vec<(String, String)> = Vec::new();
    assert(rows_view(rows@) =~= Seq::empty());
    push_address_rows(&mut rows, n);
    push_dhcp_rows(&mut rows, &n.dhcp);
    push_feature_rows(&mut rows, n);
    proof {
        assert(rows_view(rows@) =~= network_detail_spec(*n));
        assert forall|i: int| 0 <= i < rows@.len() implies (#[trigger] rows@[i].0@, rows@[i].1@)
            == network_detail_spec(*n)[i] by {
            assert(rows_view(rows@)[i] == (rows@[i].0@, rows@[i].1@));
        }
    }
    rows
}

/// The title of a network's detail panel.
pub fn network_detail_title(n: &Network) -> (s: String)
    ensures
        s@ == " "@ + n.name@ + " — Detail "@,
{
    let left = concat(" ", n.name.as_str());
    concat(left.as_str(), " — Detail ")
}

} // verus!
