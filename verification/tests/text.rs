use daemonbit::path::join;
use daemonbit::text::{
    bytes_equal, compose_message, digits_to_u32, encode_decimal, is_all_digits, os_text,
    replace_lone_surrogates,
    trim_ascii_whitespace,
};
use daemonbit::{daemon_name, ScopeKey};

#[test]
fn decimal_encoding() {
    assert_eq!(encode_decimal(0), b"0".to_vec());
    assert_eq!(encode_decimal(7), b"7".to_vec());
    assert_eq!(encode_decimal(10), b"10".to_vec());
    assert_eq!(encode_decimal(4294967295), b"4294967295".to_vec());
    for n in [1u32, 9, 99, 100, 12345, 65536] {
        assert_eq!(encode_decimal(n), n.to_string().into_bytes());
        assert_eq!(digits_to_u32(&encode_decimal(n)), Some(n));
    }
}

#[test]
fn digit_checks() {
    assert!(is_all_digits(b""));
    assert!(is_all_digits(b"0123456789"));
    assert!(!is_all_digits(b"12a"));
    assert_eq!(digits_to_u32(b"00"), Some(0));
    assert_eq!(digits_to_u32(b"99999999999"), None);
}

#[test]
fn trimming() {
    assert_eq!(trim_ascii_whitespace(b"  12 \n"), b"12");
    assert_eq!(trim_ascii_whitespace(b"\t\r\x0c"), b"");
    assert_eq!(trim_ascii_whitespace(b"a b"), b"a b");
    assert_eq!(trim_ascii_whitespace(b"\x0bx"), b"\x0bx");
    assert_eq!(trim_ascii_whitespace(b""), b"");
}

#[test]
fn joining_paths() {
    assert_eq!(join(b"/run", b"user/1000"), b"/run/user/1000".to_vec());
    assert_eq!(join(b"/run/", b"daemon"), b"/run/daemon".to_vec());
    assert_eq!(join(b"", b"daemon"), b"daemon".to_vec());
    assert_eq!(join(b"/tmp", b"/abs"), b"/abs".to_vec());
    assert_eq!(join(b"/tmp", b""), b"/tmp/".to_vec());
}

#[test]
fn messages_and_equality() {
    assert_eq!(compose_message("head: ", b"s", b"d"), b"head: s: d".to_vec());
    assert!(bytes_equal(b"abc", b"abc"));
    assert!(!bytes_equal(b"abc", b"abd"));
    assert!(!bytes_equal(b"abc", b"ab"));
}

#[test]
fn scope_names_round_trip() {
    assert_eq!(ScopeKey::from_str("global"), Some(ScopeKey::Global));
    assert_eq!(ScopeKey::from_str("local"), Some(ScopeKey::Local));
    assert_eq!(ScopeKey::from_str("Global"), None);
    assert_eq!(ScopeKey::from_str("globa"), None);
    assert_eq!(ScopeKey::from_str(""), None);
    for key in [ScopeKey::Global, ScopeKey::Local] {
        assert_eq!(ScopeKey::from_str(key.as_str()), Some(key));
    }
    assert_eq!(ScopeKey::Global.as_str(), "global");
    assert_eq!(ScopeKey::Local.as_str(), "local");
}

#[test]
fn daemon_name_is_the_configured_one() {
    assert_eq!(daemon_name("mydaemon"), "mydaemon");
}

#[test]
fn lone_surrogates_are_replaced() {
    assert_eq!(replace_lone_surrogates(b"\xed\xa0\x80"), "\u{fffd}".as_bytes().to_vec());
    assert_eq!(replace_lone_surrogates(b"x\xed\xbf\xbfy"), "x\u{fffd}y".as_bytes().to_vec());
    assert_eq!(replace_lone_surrogates("é\u{d7ff}".as_bytes()), "é\u{d7ff}".as_bytes().to_vec());
    assert_eq!(os_text(b"ok"), b"ok".to_vec());
    assert_eq!(os_text(b"\xff\xed\xa0\x80"), "\u{fffd}\u{fffd}".as_bytes().to_vec());
}
