use dyndns::response::ResponseUtils;

fn check_text() {
    assert_eq!(ResponseUtils::format_text("1.1.1.1", ""), "1.1.1.1\n\n");
    assert_eq!(ResponseUtils::format_text("", "::1"), "\n::1\n");
    assert_eq!(ResponseUtils::format_text("1.1.1.1", "::1"), "1.1.1.1\n::1\n");
    assert_eq!(ResponseUtils::format_text("", ""), "\n\n");
}

#[test]
fn response_text_formatting() {
    check_text();
}

#[test]
fn lib_text_formatting() {
    check_text();
}

fn check_escapes() {
    let test_cases = vec![
        ("normal text", "normal text", "plain text unchanged"),
        ("<script>", "&lt;script&gt;", "angle brackets escaped"),
        ("&amp;", "&amp;amp;", "ampersand escaped"),
        ("\"quoted\"", "&quot;quoted&quot;", "double quotes escaped"),
        ("'single'", "&apos;single&apos;", "single quotes escaped"),
        (
            "192.168.1.1<script>&alert('xss')</script>",
            "192.168.1.1&lt;script&gt;&amp;alert(&apos;xss&apos;)&lt;/script&gt;",
            "complex XSS attempt escaped",
        ),
    ];

    for (input, expected, description) in test_cases {
        assert_eq!(ResponseUtils::escape_xml(input), expected, "Failed: {}", description);
    }
}

#[test]
fn response_xml_escaping() {
    check_escapes();
}

#[test]
fn lib_xml_escaping() {
    check_escapes();
}

fn check_xml_bodies() {
    let test_cases = vec![
        (
            "192.168.1.1",
            "2001:db8::1",
            "<ip><ipv4>192.168.1.1</ipv4><ipv6>2001:db8::1</ipv6></ip>",
            "both IPv4 and IPv6",
        ),
        ("", "", "<ip><ipv4></ipv4><ipv6></ipv6></ip>", "empty IPs"),
        ("10.0.0.1", "", "<ip><ipv4>10.0.0.1</ipv4><ipv6></ipv6></ip>", "IPv4 only"),
        ("", "fe80::1", "<ip><ipv4></ipv4><ipv6>fe80::1</ipv6></ip>", "IPv6 only"),
    ];

    for (ipv4, ipv6, expected, description) in test_cases {
        let ipv4_escaped = ResponseUtils::escape_xml(ipv4);
        let ipv6_escaped = ResponseUtils::escape_xml(ipv6);
        let actual = format!("<ip><ipv4>{}</ipv4><ipv6>{}</ipv6></ip>", ipv4_escaped, ipv6_escaped);
        assert_eq!(actual, expected, "Failed: {}", description);
        assert_eq!(ResponseUtils::xml_body(ipv4, ipv6), expected, "Failed: {}", description);
    }
}

#[test]
fn response_xml_response_formatting() {
    check_xml_bodies();
}

#[test]
fn lib_xml_response_formatting() {
    check_xml_bodies();
}

#[test]
fn xml_body_escapes_addresses() {
    assert_eq!(
        ResponseUtils::xml_body("<a>", "b&c"),
        "<ip><ipv4>&lt;a&gt;</ipv4><ipv6>b&amp;c</ipv6></ip>"
    );
}

#[test]
fn escape_keeps_non_ascii() {
    assert_eq!(ResponseUtils::escape_xml("é<ü"), "é&lt;ü");
}
