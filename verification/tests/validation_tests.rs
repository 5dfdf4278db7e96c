use netctl::text::split;
use netctl::validation::{
    validate_interface_name, validate_ip_address, validate_ipv4, validate_ipv6,
};

#[test]
fn texts_are_split_at_every_separator() {
    for s in ["", "a", "a.b", ".", "..", "a..b", ".a", "a.", "1.2.3.4", "é.ü"] {
        let expected: Vec<&str> = s.split('.').collect();
        assert_eq!(split(s, '.'), expected, "{:?}", s);
    }
}

#[test]
fn interface_names_are_short_and_plain() {
    for good in ["eth0", "wlan0", "br-lan", "veth_1", "eth0.100", "eth0:1", "a", "tun@x", "abcdefghijklmno"] {
        assert!(validate_interface_name(good), "{}", good);
    }
    for bad in ["", "abcdefghijklmnop", "eth 0", "eth/0", "eth0\n", "étho", "eth0;rm", "a\tb"] {
        assert!(!validate_interface_name(bad), "{:?}", bad);
    }
}

#[test]
fn ipv4_addresses_are_four_small_numbers() {
    for good in ["0.0.0.0", "10.0.0.1", "255.255.255.255", "192.168.1.10", "1.2.3.4"] {
        assert!(validate_ipv4(good), "{}", good);
        assert!(validate_ip_address(good), "{}", good);
    }
    for bad in [
        "", "1.2.3", "1.2.3.4.5", "256.1.1.1", "1.1.1.256", "01.2.3.4", "1.2.3.04", "1..3.4",
        ".1.2.3", "1.2.3.", "a.b.c.d", "1.2.3.4 ", " 1.2.3.4", "+1.2.3.4", "1.2.3.-4", "1,2,3,4",
        "1.2.3.4/24", "1000.1.1.1", "٣.1.1.1",
    ] {
        assert!(!validate_ipv4(bad), "{:?}", bad);
        assert!(!validate_ip_address(bad), "{:?}", bad);
    }
}

#[test]
fn ipv6_addresses_are_groups_with_one_gap_at_most() {
    for good in [
        "::", "::1", "1::", "fe80::1", "2001:db8::8a2e:370:7334",
        "2001:0db8:85a3:0000:0000:8a2e:0370:7334", "1:2:3:4:5:6:7:8", "1:2:3:4:5:6:7::",
        "::2:3:4:5:6:7:8", "1::3:4:5:6:7:8", "::ffff:192.168.1.1", "64:ff9b::10.0.0.1",
        "1:2:3:4:5:6:1.2.3.4", "::1.2.3.4", "ABCD:ef01::", "1:2:3:4:5::1.2.3.4",
    ] {
        assert!(validate_ipv6(good), "{}", good);
        assert!(validate_ip_address(good), "{}", good);
    }
    for bad in [
        "", ":", ":::", "1", "1:2", "1:2:3:4:5:6:7", "1:2:3:4:5:6:7:8:9", "1:2:3:4:5:6:7:8::",
        "::1:2:3:4:5:6:7:8", "1::2::3", ":1", "1:", ":1::", "::1:", "12345::", "g::", "fe80::1%eth0",
        "1:2:3:4:5:6:7:1.2.3.4", "1.2.3.4::", "1:2:3:4:5:6:1.2.3", "::1.2.3.4:5", " ::1", "::1 ",
        "1:2:3:4:5:6::1.2.3.4",
    ] {
        assert!(!validate_ipv6(bad), "{:?}", bad);
    }
    assert!(!validate_ip_address("gateway"));
    assert!(!validate_ip_address("1:2"));
}
