use unifi_core::address::{is_ip_text, is_ipv4_text, is_ipv6_text};

/// Texts with whether std reads them as an IPv4 and as an IPv6 address.
const SAMPLES: &[(&str, bool, bool)] = &[
    ("", false, false),
    ("0.0.0.0", true, false),
    ("192.168.1.1", true, false),
    ("255.255.255.255", true, false),
    ("256.1.1.1", false, false),
    ("1.2.3", false, false),
    ("1.2.3.4.5", false, false),
    ("01.2.3.4", false, false),
    ("1.2.3.04", false, false),
    ("1.2.3.0", true, false),
    ("1..2.3", false, false),
    ("1.2.3.4 ", false, false),
    (" 1.2.3.4", false, false),
    ("+1.2.3.4", false, false),
    ("1.2.3.-4", false, false),
    ("1234.1.1.1", false, false),
    ("a.b.c.d", false, false),
    ("::", false, true),
    ("::1", false, true),
    ("1::", false, true),
    ("1:2:3:4:5:6:7:8", false, true),
    ("1:2:3:4:5:6:7:8:9", false, false),
    ("1:2:3:4:5:6:7", false, false),
    ("1:2:3:4:5:6:7::", false, true),
    ("1:2:3:4:5:6:7::8", false, false),
    ("::1:2:3:4:5:6:7", false, true),
    ("::1:2:3:4:5:6:7:8", false, false),
    ("1::2::3", false, false),
    (":::", false, false),
    (":1::2", false, false),
    ("1::2:", false, false),
    ("fe80::1", false, true),
    ("FE80::ABCD:ef01", false, true),
    ("2001:db8::", false, true),
    ("2001:0db8:0000:0000:0000:0000:0000:0001", false, true),
    ("2001:db8:00000::1", false, false),
    ("12345::", false, false),
    ("g::1", false, false),
    ("::ffff:192.168.1.1", false, true),
    ("::ffff:192.168.1.256", false, false),
    ("::ffff:01.2.3.4", false, false),
    ("1:2:3:4:5:6:1.2.3.4", false, true),
    ("1:2:3:4:5:6:7:1.2.3.4", false, false),
    ("1:2:3:4:5::1.2.3.4", false, true),
    ("1:2:3:4:5:6::1.2.3.4", false, false),
    ("1.2.3.4::", false, false),
    ("1.2.3.4::1", false, false),
    ("::1.2.3.4", false, true),
    ("::1.2.3.4:5", false, false),
    ("1:2::1.2.3.4", false, true),
    ("1:2:1.2.3.4", false, false),
    (":1:2:3:4:5:6:7:8", false, false),
    ("1:2:3:4:5:6:7:8:", false, false),
    ("::0:0:0:0:0:0:0", false, true),
    ("0:0:0:0:0:0:0::", false, true),
    ("1:", false, false),
    (":", false, false),
    ("1", false, false),
    ("::g", false, false),
    ("::-1", false, false),
];

#[test]
fn ipv4_texts() {
    for (s, v4, _) in SAMPLES {
        assert_eq!(is_ipv4_text(s), *v4, "{s:?}");
    }
}

#[test]
fn ipv6_texts() {
    for (s, _, v6) in SAMPLES {
        assert_eq!(is_ipv6_text(s), *v6, "{s:?}");
    }
}

#[test]
fn ip_texts() {
    for (s, v4, v6) in SAMPLES {
        assert_eq!(is_ip_text(s), *v4 || *v6, "{s:?}");
    }
}

#[test]
fn common_addresses_are_recognized() {
    assert!(is_ipv4_text("10.0.0.1"));
    assert!(!is_ipv4_text("10.0.0.1/24"));
    assert!(is_ipv6_text("fd00::1"));
    assert!(!is_ipv6_text("10.0.0.1"));
    assert!(is_ip_text("10.0.0.1") && is_ip_text("fd00::1"));
    assert!(!is_ip_text("gateway.local"));
}
