//! Address literals and decimal numbers.

use arti_c::ip::{parse_ip, IpAddr};
use arti_c::text::{chars_of, decimal_text};
use tor_socksproto::SocksAddr;

/// What the standard library makes of a literal, as text.
fn standard(text: &str) -> Option<String> {
    match text.parse() {
        Ok(ip) => Some(SocksAddr::Ip(ip).to_string()),
        Err(_) => None,
    }
}

/// An address as the standard library writes it.
fn written(ip: IpAddr) -> String {
    match ip {
        IpAddr::V4(a, b, c, d) => SocksAddr::Ip([a, b, c, d].into()).to_string(),
        IpAddr::V6(a, b, c, d, e, f, g, h) => {
            SocksAddr::Ip([a, b, c, d, e, f, g, h].into()).to_string()
        }
    }
}

#[test]
fn ipv4_literals() {
    assert_eq!(parse_ip("127.0.0.1"), Some(IpAddr::V4(127, 0, 0, 1)));
    assert_eq!(parse_ip("255.255.255.255"), Some(IpAddr::V4(255, 255, 255, 255)));
    for text in ["1.2.3", "1.2.3.4.", ".1.2.3.4", "1.2.3.4.5", "1.2.3.256", "01.2.3.4", "1.2.3.00",
        "1.2.3.1234", "1..2.3", "0x1.2.3.4", "1.2.3.a", " 1.2.3.4", "1.2.3.4 ", "+1.2.3.4"]
    {
        assert_eq!(parse_ip(text), None, "{}", text);
    }
}

#[test]
fn ipv6_literals() {
    assert_eq!(parse_ip("::"), Some(IpAddr::V6(0, 0, 0, 0, 0, 0, 0, 0)));
    assert_eq!(parse_ip("1::2"), Some(IpAddr::V6(1, 0, 0, 0, 0, 0, 0, 2)));
    assert_eq!(
        parse_ip("2001:DB8::ff00:42:8329"),
        Some(IpAddr::V6(0x2001, 0xdb8, 0, 0, 0, 0xff00, 0x42, 0x8329))
    );
    assert_eq!(
        parse_ip("::ffff:192.0.2.128"),
        Some(IpAddr::V6(0, 0, 0, 0, 0, 0xffff, 0xc000, 0x0280))
    );
    for text in ["", ":", ":::", "1:2:3:4:5:6:7", "1:2:3:4:5:6:7:8:9", "1::2::3", "12345::", "g::",
        "1.2.3.4::", "::1.2.3.4:5", "1:2:3:4:5:6:7:1.2.3.4", "1:2:3:4:5:6:7::8", "[::1]", "::1%eth0",
        "1:2:3:4:5:6::1.2.3.4", "::256.1.1.1", ":1:2:3:4:5:6:7", "1:2:3:4:5:6:7:"]
    {
        assert_eq!(parse_ip(text), None, "{}", text);
    }
}

#[test]
fn agrees_with_the_standard_library() {
    let pieces = ["", "0", "1", "00", "12", "255", "256", "ffff", "FFFF", "12345", "1.2.3.4", "g", ":", "::", "."];
    let mut texts: Vec<String> = Vec::new();
    for a in pieces {
        for b in pieces {
            for c in pieces {
                texts.push(format!("{}{}{}", a, b, c));
                texts.push(format!("{}:{}:{}", a, b, c));
                texts.push(format!("{}::{}:{}", a, b, c));
                texts.push(format!("{}.{}.{}.1", a, b, c));
                texts.push(format!("1:2:3:4:5:{}:{}:{}", a, b, c));
                texts.push(format!("1:2:3:4:{}:{}::{}", a, b, c));
                texts.push(format!("{}::2:3:4:5:{}:{}", a, b, c));
            }
        }
    }
    for text in texts {
        assert_eq!(parse_ip(&text).map(written), standard(&text), "{}", text);
    }
}

#[test]
fn written_ipv4_addresses_are_literals() {
    for a in [0u8, 1, 9, 10, 99, 100, 199, 200, 254, 255] {
        for d in 0..=255u8 {
            let text = format!("{}.{}.{}.{}", a, d, a, d);
            assert_eq!(parse_ip(&text), Some(IpAddr::V4(a, d, a, d)));
        }
    }
}

#[test]
fn other_text_is_no_literal() {
    for text in ["example.com", "localhost", "1.2.3.4\0", "\u{661}.1.1.1", "caf\u{e9}", "fe80"] {
        assert_eq!(parse_ip(text), None, "{:?}", text);
    }
}

#[test]
fn decimal_numbers() {
    for n in [0u32, 7, 10, 80, 100, 9050, 9999, 10000, 65535, 65536, 4000000000, u32::MAX] {
        assert_eq!(decimal_text(n), n.to_string());
    }
}

#[test]
fn characters_of_a_text() {
    assert_eq!(chars_of("a\u{e9}\0z"), vec!['a', '\u{e9}', '\0', 'z']);
    assert_eq!(chars_of(""), Vec::<char>::new());
}
