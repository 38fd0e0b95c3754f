use ztunnel::net::{to_be_bytes, to_canonical, with_ip, IpAddr, SocketAddr};
use ztunnel::text::{decimal_text, join, lines, same_text, strip_suffix};

#[test]
fn octets_are_in_network_order() {
    assert_eq!(IpAddr::V4(0x7f00_0001).octets(), vec![127, 0, 0, 1]);
    assert_eq!(IpAddr::from_octets(127, 0, 0, 1), IpAddr::V4(0x7f00_0001));
    assert_eq!(
        IpAddr::V6(1).octets(),
        vec![0, 0, 0, 0, 0, 0, 0, 0, 0, 0, 0, 0, 0, 0, 0, 1]
    );
    assert_eq!(to_be_bytes(15008, 2), vec![0x3a, 0xa0]);
    assert_eq!(to_be_bytes(0x1_02_03, 2), vec![2, 3]);
}

#[test]
fn mapped_addresses_become_ipv4() {
    let mapped = SocketAddr { ip: IpAddr::V6(0xffff_7f00_0001), port: 80 };
    let plain = SocketAddr { ip: IpAddr::V4(0x7f00_0001), port: 80 };
    assert_eq!(to_canonical(mapped), plain);
    assert_eq!(to_canonical(plain), plain);
    assert_eq!(to_canonical(to_canonical(mapped)), to_canonical(mapped));
    let other = SocketAddr { ip: IpAddr::V6(0x1_ffff_7f00_0001), port: 80 };
    assert_eq!(to_canonical(other), other);
    assert!(plain.ip.is_ipv4());
    assert!(!mapped.ip.is_ipv4());
}

#[test]
fn addresses_are_written_out() {
    assert_eq!(IpAddr::from_octets(127, 0, 0, 1).to_text(""), "127.0.0.1");
    assert_eq!(IpAddr::V4(u32::MAX).to_text("x"), "255.255.255.255");
    assert_eq!(IpAddr::V6(1).to_text("::1"), "::1");
}

#[test]
fn the_port_stays() {
    let addr = SocketAddr { ip: IpAddr::V6(1), port: 15080 };
    assert_eq!(
        with_ip(addr, IpAddr::V4(7)),
        SocketAddr { ip: IpAddr::V4(7), port: 15080 }
    );
}

#[test]
fn numbers_and_lists_are_written_out() {
    assert_eq!(decimal_text(0), "0");
    assert_eq!(decimal_text(90817263545), "90817263545");
    assert_eq!(decimal_text(u128::MAX), u128::MAX.to_string());
    let parts = vec!["a".to_string(), "".to_string(), "b".to_string()];
    assert_eq!(join(&parts, " "), "a  b");
    assert_eq!(join(&Vec::new(), " "), "");
    assert_eq!(join(&vec!["a".to_string()], " "), "a");
    assert!(same_text("a", "a"));
    assert!(!same_text("a", "b"));
}

#[test]
fn suffixes_are_stripped_once() {
    assert_eq!(strip_suffix("opened_total", "_total"), "opened");
    assert_eq!(strip_suffix("opened_total_total", "_total"), "opened_total");
    assert_eq!(strip_suffix("_total", "_total"), "");
    assert_eq!(strip_suffix("total", "_total"), "total");
    assert_eq!(strip_suffix("opened_totals", "_total"), "opened_totals");
}

#[test]
fn lines_end_as_in_the_standard_library() {
    for s in ["", "\n", "a", "a\n", "a\nb", "a\r\nb\r\n", "\r", "a\r", "\n\n", "a\n\r\nb\rc\n", "ä\nö"] {
        let expected: Vec<String> = s.lines().map(|l| l.to_string()).collect();
        assert_eq!(lines(s), expected, "{s:?}");
    }
}
