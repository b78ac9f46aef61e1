use dyndns::ip::{IpAddress, IpUtils};

fn parsed(ip: &str) -> Option<IpAddress> {
    if ip.is_empty() {
        None
    } else if ip.contains(':') {
        Some(IpAddress::V6(ip.to_string()))
    } else {
        Some(IpAddress::V4(ip.to_string()))
    }
}

#[test]
fn ip_ip_splitting() {
    let test_cases = vec![
        ("1.2.3.4", "1.2.3.4", "", "IPv4 address"),
        ("::1", "", "::1", "IPv6 loopback"),
        ("2001:db8:85a3::8a2e:370:7334", "", "2001:db8:85a3::8a2e:370:7334", "Full IPv6 address"),
        ("203.0.113.1", "203.0.113.1", "", "IPv4 test address"),
        ("", "", "", "Empty string"),
    ];

    for (input, expected_v4, expected_v6, description) in test_cases {
        let (actual_v4, actual_v6) = IpUtils::split_ip(parsed(input));
        assert_eq!(actual_v4, expected_v4, "IPv4 failed for: {}", description);
        assert_eq!(actual_v6, expected_v6, "IPv6 failed for: {}", description);
    }
}
