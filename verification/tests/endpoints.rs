use airadb::endpoint::{extract_ipv4_endpoints, is_ipv4_endpoint, is_plausible_endpoint};
use airadb::text::{
    chars_of, decimal_text, is_white_space, last_of, parse_number, trim_full_stops,
    trim_white_space,
};

#[test]
fn validates_ipv4_endpoint_shape() {
    assert!(is_plausible_endpoint("192.168.68.54:42209"));
    assert!(is_plausible_endpoint("localhost:5555"));
    assert!(!is_plausible_endpoint("192.168.68.54"));
    assert!(!is_plausible_endpoint("192.168.68.54:notaport"));
    assert!(!is_plausible_endpoint("192.168.68.54:70000"));
    assert!(!is_plausible_endpoint("192.168.68.54:42209 extra"));
}

#[test]
fn extracts_ip_ports_from_ui_hierarchy_text() {
    let hierarchy = r#"
<node text="IP address &amp; Port" />
<node text="192.168.68.54:37197" />
<node bounds="[0,123][456,789]" />
<node text="192.168.68.54:37197." />
"#;

    assert_eq!(
        extract_ipv4_endpoints(hierarchy),
        vec!["192.168.68.54:37197"]
    );
}

#[test]
fn validates_strict_ipv4_endpoint_shape() {
    assert!(is_ipv4_endpoint("192.168.68.54:37197"));
    assert!(!is_ipv4_endpoint("localhost:5555"));
    assert!(!is_ipv4_endpoint("192.168.68.54:0"));
    assert!(!is_ipv4_endpoint("999.168.68.54:37197"));
    assert!(!is_ipv4_endpoint("192.168.68.54:notaport"));
}

#[test]
fn plausible_endpoints_at_the_edges() {
    assert!(is_plausible_endpoint(":0"));
    assert!(is_plausible_endpoint("a:b:65535"));
    assert!(is_plausible_endpoint("[::1]:+5555"));
    assert!(is_plausible_endpoint("host:00005555"));
    assert!(is_plausible_endpoint("\u{3000} host:1\t\n"));
    assert!(!is_plausible_endpoint(""));
    assert!(!is_plausible_endpoint("   "));
    assert!(!is_plausible_endpoint(":"));
    assert!(!is_plausible_endpoint("host:"));
    assert!(!is_plausible_endpoint("host:+"));
    assert!(!is_plausible_endpoint("host:++1"));
    assert!(!is_plausible_endpoint("host:-1"));
    assert!(!is_plausible_endpoint("host:65536"));
    assert!(!is_plausible_endpoint("5555:"));
    assert!(!is_plausible_endpoint("my host:5555"));
    assert!(!is_plausible_endpoint("host\u{a0}:5555"));
    assert!(!is_plausible_endpoint("host:٣"));
}

#[test]
fn strict_endpoints_at_the_edges() {
    assert!(is_ipv4_endpoint("0.0.0.0:1"));
    assert!(is_ipv4_endpoint("255.255.255.255:65535"));
    assert!(is_ipv4_endpoint("+1.02.003.4:+5"));
    assert!(!is_ipv4_endpoint("256.0.0.1:1"));
    assert!(!is_ipv4_endpoint("1.2.3:1"));
    assert!(!is_ipv4_endpoint("1.2.3.4.5:1"));
    assert!(!is_ipv4_endpoint("1..3.4:1"));
    assert!(!is_ipv4_endpoint("1.2.3.:1"));
    assert!(!is_ipv4_endpoint("1.2.3.4:65536"));
    assert!(!is_ipv4_endpoint("1.2.3.4"));
    assert!(!is_ipv4_endpoint(" 1.2.3.4:1"));
    assert!(!is_ipv4_endpoint("1.2.3.4:5:6"));
    assert!(!is_ipv4_endpoint(""));
}

#[test]
fn strict_endpoints_are_plausible() {
    for endpoint in ["192.168.68.54:37197", "0.0.0.0:1", "+1.02.003.4:+5"] {
        assert!(is_ipv4_endpoint(endpoint));
        assert!(is_plausible_endpoint(endpoint));
    }
}

#[test]
fn endpoints_are_found_once_and_in_order() {
    assert_eq!(
        extract_ipv4_endpoints("b 2.2.2.2:2, a 1.1.1.1:1; again 2.2.2.2:2."),
        vec!["2.2.2.2:2", "1.1.1.1:1"]
    );
    assert_eq!(
        extract_ipv4_endpoints("...10.0.0.1:80..."),
        vec!["10.0.0.1:80"]
    );
    assert_eq!(extract_ipv4_endpoints("ä10.0.0.1:80ö"), vec!["10.0.0.1:80"]);
    assert_eq!(extract_ipv4_endpoints(""), Vec::<String>::new());
    assert_eq!(
        extract_ipv4_endpoints("1.2.3.4:5:6 1.2.3.4:0 1.2.3.4"),
        Vec::<String>::new()
    );
}

#[test]
fn reading_on_keeps_what_was_found() {
    let read = "x 1.1.1.1:1 y 2.2.2.2:2";
    let found = extract_ipv4_endpoints(read);
    let more = extract_ipv4_endpoints(&format!("{}|{}", read, "1.1.1.1:1 3.3.3.3:3"));
    assert_eq!(found, vec!["1.1.1.1:1", "2.2.2.2:2"]);
    assert_eq!(more[..2], found[..]);
    assert_eq!(more[2..], ["3.3.3.3:3"]);
}

#[test]
fn white_space_around_an_endpoint_does_not_matter() {
    for text in ["host:1", "host", "a b:1"] {
        assert_eq!(
            is_plausible_endpoint(text),
            is_plausible_endpoint(&format!("\u{2003}{}\r\n", text))
        );
    }
}

#[test]
fn white_space_is_what_unicode_says() {
    for c in '\0'..=char::MAX {
        assert_eq!(is_white_space(c), c.is_whitespace());
    }
}

#[test]
fn numbers_are_read_up_to_a_limit() {
    let number = |text: &str, max: u32| parse_number(&chars_of(text), max);
    assert_eq!(number("65535", 65535), Some(65535));
    assert_eq!(number("65536", 65535), None);
    assert_eq!(number("+7", 9), Some(7));
    assert_eq!(number("007", 9), Some(7));
    assert_eq!(number("", 9), None);
    assert_eq!(number("+", 9), None);
    assert_eq!(number("1a", 9), None);
    assert_eq!(number("4294967295", u32::MAX), Some(u32::MAX));
    assert_eq!(number("4294967296", u32::MAX), None);
    assert_eq!(number("99999999999999999999999999", u32::MAX), None);
}

#[test]
fn decimal_numbers_are_written_and_read_back() {
    assert_eq!(decimal_text(0), "0");
    assert_eq!(decimal_text(10), "10");
    assert_eq!(decimal_text(u64::MAX), "18446744073709551615");
    for n in [0u32, 9, 10, 99, 100, 65535, u32::MAX] {
        assert_eq!(decimal_text(n as u64), n.to_string());
        assert_eq!(
            parse_number(&chars_of(&decimal_text(n as u64)), u32::MAX),
            Some(n)
        );
    }
}

#[test]
fn trimming_takes_both_ends_and_no_more() {
    let text = chars_of(" \ta b\u{2029}");
    assert_eq!(trim_white_space(&text).iter().collect::<String>(), "a b");
    assert_eq!(trim_white_space(&chars_of("  ")).len(), 0);
    let dots = chars_of("..1.2..");
    assert_eq!(trim_full_stops(&dots, 0, 7), (2, 5));
    assert_eq!(trim_full_stops(&dots, 3, 4), (4, 4));
    assert_eq!(last_of(&dots, '.'), Some(6));
    assert_eq!(last_of(&dots, ':'), None);
}
