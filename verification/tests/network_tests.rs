use scan_engine::error::ScanError;
use scan_engine::model::IpAddress;
use scan_engine::network::{
    format_address, parse_address, parse_ipv4, IpNetwork, IpType, NetworkUtils,
};
use scan_engine::text::chars_of;

fn v4(a: u32, b: u32, c: u32, d: u32) -> IpAddress {
    IpAddress::V4((a << 24) | (b << 16) | (c << 8) | d)
}

fn texts(list: &[&str]) -> Vec<String> {
    list.iter().map(|s| s.to_string()).collect()
}

#[test]
fn dotted_quads_are_strict() {
    for (text, expected) in [
        ("0.0.0.0", Some(0u32)),
        ("10.0.0.1", Some(0x0a000001)),
        ("255.255.255.255", Some(0xffffffff)),
        ("256.0.0.1", None),
        ("1.2.3", None),
        ("1.2.3.4.5", None),
        ("01.2.3.4", None),
        ("1.2.3.04", None),
        ("+1.2.3.4", None),
        ("1..3.4", None),
        ("", None),
        ("1.2.3.4 ", None),
        ("a.b.c.d", None),
        ("1.2.3.0004", None),
        ("0.0.0.00", None),
    ] {
        assert_eq!(parse_ipv4(&chars_of(text)), expected, "text {:?}", text);
    }
}

#[test]
fn addresses_of_both_families_are_read() {
    for (text, expected) in [
        ("10.0.0.1", Some(IpAddress::V4(0x0a000001))),
        ("::1", Some(IpAddress::V6(1))),
        ("::", Some(IpAddress::V6(0))),
        ("2001:db8::ff00:42:8329", Some(IpAddress::V6(0x20010db8000000000000ff0000428329))),
        ("::ffff:1.2.3.4", Some(IpAddress::V6(0xffff01020304))),
        ("1:2:3:4:5:6:7:8", Some(IpAddress::V6(0x00010002000300040005000600070008))),
        ("fe80::1%eth0", None),
        ("10.0", None),
        ("10", None),
        ("::1/128", None),
        ("10.0.0.1/32", None),
        ("1:2:3:4:5:6:7", None),
        ("g::1", None),
        ("", None),
    ] {
        assert_eq!(parse_address(text), expected, "text {:?}", text);
    }
}

#[test]
fn address_text_is_dotted_or_compressed() {
    for (n, text) in [
        (0u32, "0.0.0.0"),
        (1, "0.0.0.1"),
        (0x0a000001, "10.0.0.1"),
        (0xc0a80101, "192.168.1.1"),
        (0xffffffff, "255.255.255.255"),
        (0x7f000001, "127.0.0.1"),
    ] {
        assert_eq!(format_address(&IpAddress::V4(n)), text);
    }
    for (n, text) in [
        (0u128, "::"),
        (1, "::1"),
        (0x20010db8000000000000ff0000428329, "2001:db8::ff00:42:8329"),
        (u128::MAX, "ffff:ffff:ffff:ffff:ffff:ffff:ffff:ffff"),
        (0xfe800000000000000000000000000001, "fe80::1"),
    ] {
        assert_eq!(format_address(&IpAddress::V6(n)), text);
    }
}

#[test]
fn slash_30_expands_to_four_addresses() {
    let ips = NetworkUtils::expand_cidr("10.0.0.0/30").unwrap();
    assert_eq!(ips, vec![v4(10, 0, 0, 0), v4(10, 0, 0, 1), v4(10, 0, 0, 2), v4(10, 0, 0, 3)]);
}

#[test]
fn host_network_expands_to_itself() {
    assert_eq!(NetworkUtils::expand_cidr("192.168.1.7/32").unwrap(), vec![v4(192, 168, 1, 7)]);
    assert_eq!(NetworkUtils::expand_cidr("192.168.1.7").unwrap(), vec![v4(192, 168, 1, 7)]);
    assert_eq!(NetworkUtils::expand_cidr("::1/128").unwrap(), vec![IpAddress::V6(1)]);
}

#[test]
fn expansion_is_cut_off_after_65536() {
    let ips = NetworkUtils::expand_cidr("10.0.0.0/8").unwrap();
    assert_eq!(ips.len(), 65536);
    assert_eq!(ips[0], v4(10, 0, 0, 0));
    assert_eq!(ips[65535], v4(10, 0, 255, 255));
    let exact = NetworkUtils::expand_cidr("10.1.0.0/16").unwrap();
    assert_eq!(exact.len(), 65536);
    let below = NetworkUtils::expand_cidr("10.1.0.0/17").unwrap();
    assert_eq!(below.len(), 32768);
    let all = NetworkUtils::expand_cidr("0.0.0.0/0").unwrap();
    assert_eq!(all.len(), 65536);
    let six = NetworkUtils::expand_cidr("2001:db8::/32").unwrap();
    assert_eq!(six.len(), 65536);
    assert_eq!(six[1], IpAddress::V6(0x20010db8000000000000000000000001));
    let top = NetworkUtils::expand_cidr("255.255.255.252/30").unwrap();
    assert_eq!(top[3], v4(255, 255, 255, 255));
}

#[test]
fn expansion_refuses_what_is_no_network() {
    for text in ["10.0.0.1/30", "10.0.0.0/33", "not a range", "", "10.0.0.0/"] {
        assert_eq!(
            NetworkUtils::expand_cidr(text).unwrap_err(),
            ScanError::Validation { message: format!("Invalid CIDR notation: {}", text) },
            "text {:?}",
            text
        );
    }
}

#[test]
fn target_list_leaves_out_the_excluded() {
    let targets =
        NetworkUtils::generate_target_list(&texts(&["10.0.0.0/30"]), &texts(&["10.0.0.1/32"])).unwrap();
    assert_eq!(targets, vec![v4(10, 0, 0, 0), v4(10, 0, 0, 2), v4(10, 0, 0, 3)]);
}

#[test]
fn target_list_joins_ranges_in_order() {
    let targets = NetworkUtils::generate_target_list(
        &texts(&["10.0.0.4/31", "10.0.0.0/31", "10.0.0.4/31"]),
        &texts(&["bogus", "10.0.0.5/32"]),
    )
    .unwrap();
    assert_eq!(
        targets,
        vec![v4(10, 0, 0, 4), v4(10, 0, 0, 0), v4(10, 0, 0, 1), v4(10, 0, 0, 4)]
    );
}

#[test]
fn target_list_fails_at_the_first_bad_range() {
    let e = NetworkUtils::generate_target_list(&texts(&["10.0.0.0/31", "nope", "also nope"]), &vec![])
        .unwrap_err();
    assert_eq!(e, ScanError::Validation { message: "Invalid CIDR notation: nope".to_string() });
}

#[test]
fn address_families_do_not_exclude_each_other() {
    let targets =
        NetworkUtils::generate_target_list(&texts(&["0.0.0.1/32", "::1/128"]), &texts(&["::1/128"])).unwrap();
    assert_eq!(targets, vec![IpAddress::V4(1)]);
}

#[test]
fn target_list_from_given_networks() {
    let ranges = texts(&["a", "b"]);
    let nets = vec![
        Some(IpNetwork::V4 { first: 8, prefix_len: 31 }),
        Some(IpNetwork::V4 { first: 16, prefix_len: 32 }),
    ];
    let excluded = vec![None, Some(IpNetwork::V4 { first: 9, prefix_len: 32 })];
    assert_eq!(
        NetworkUtils::target_list_from(&ranges, &nets, &excluded).unwrap(),
        vec![IpAddress::V4(8), IpAddress::V4(16)]
    );
    let broken = vec![Some(IpNetwork::V4 { first: 8, prefix_len: 31 }), None];
    assert_eq!(
        NetworkUtils::target_list_from(&ranges, &broken, &excluded).unwrap_err(),
        ScanError::Validation { message: "Invalid CIDR notation: b".to_string() }
    );
}

#[test]
fn private_addresses_follow_the_ranges() {
    for (ip, private) in [
        (v4(10, 1, 2, 3), true),
        (v4(172, 16, 0, 1), true),
        (v4(172, 31, 255, 255), true),
        (v4(172, 32, 0, 1), false),
        (v4(172, 15, 0, 1), false),
        (v4(192, 168, 0, 1), true),
        (v4(192, 169, 0, 1), false),
        (v4(127, 0, 0, 1), true),
        (v4(169, 254, 1, 1), true),
        (v4(169, 253, 1, 1), false),
        (v4(8, 8, 8, 8), false),
        (v4(224, 0, 0, 1), false),
        (IpAddress::V6(1), true),
        (IpAddress::V6(0), true),
        (IpAddress::V6(0xfec0_0000_0000_0000_0000_0000_0000_0001), true),
        (IpAddress::V6(0xfeff_0000_0000_0000_0000_0000_0000_0001), true),
        (IpAddress::V6(0xfc00_0000_0000_0000_0000_0000_0000_0001), true),
        (IpAddress::V6(0xfdff_0000_0000_0000_0000_0000_0000_0001), true),
        (IpAddress::V6(0xfe80_0000_0000_0000_0000_0000_0000_0001), false),
        (IpAddress::V6(0x2001_0db8_0000_0000_0000_0000_0000_0001), false),
    ] {
        assert_eq!(NetworkUtils::is_private_ip(&ip), private, "{:?}", ip);
    }
}

#[test]
fn addresses_are_classified() {
    assert_eq!(NetworkUtils::classify_ip(&v4(127, 0, 0, 1)), IpType::Loopback);
    assert_eq!(NetworkUtils::classify_ip(&v4(10, 0, 0, 1)), IpType::Private);
    assert_eq!(NetworkUtils::classify_ip(&v4(224, 0, 0, 1)), IpType::Multicast);
    assert_eq!(NetworkUtils::classify_ip(&v4(239, 255, 255, 255)), IpType::Multicast);
    assert_eq!(NetworkUtils::classify_ip(&v4(255, 255, 255, 255)), IpType::Broadcast);
    assert_eq!(NetworkUtils::classify_ip(&v4(8, 8, 8, 8)), IpType::Public);
    assert_eq!(NetworkUtils::classify_ip(&v4(169, 254, 0, 1)), IpType::Public);
    assert_eq!(NetworkUtils::classify_ip(&IpAddress::V6(1)), IpType::IPv6);
    let info = NetworkUtils::get_network_info(&v4(192, 168, 1, 1));
    assert_eq!(info.ip, v4(192, 168, 1, 1));
    assert!(info.is_private);
    assert_eq!(info.ip_type, IpType::Private);
}
