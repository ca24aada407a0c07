use presence_link::text::byte_len;
use presence_link::text::starts_with;
use presence_link::text::str_equal;

#[test]
fn byte_len_counts_bytes_not_characters() {
    assert_eq!(byte_len(""), 0);
    assert_eq!(byte_len("abc"), 3);
    assert_eq!(byte_len("caf\u{e9}"), 5);
    assert_eq!(byte_len("\u{1f600}"), 4);
}

#[test]
fn str_equal_compares_every_character() {
    assert!(str_equal("", ""));
    assert!(str_equal("WPA", "WPA"));
    assert!(!str_equal("WPA", "WPA2"));
    assert!(!str_equal("WPA2", "WPA"));
    assert!(!str_equal("WPA", "WPa"));
    assert!(!str_equal("", "x"));
    assert!(str_equal("caf\u{e9}", "caf\u{e9}"));
    assert!(!str_equal("caf\u{e9}", "cafe"));
}

#[test]
fn starts_with_checks_the_leading_characters() {
    assert!(starts_with("Connected(session: true)", "Connected"));
    assert!(starts_with("Connected", "Connected"));
    assert!(starts_with("anything", ""));
    assert!(starts_with("", ""));
    assert!(!starts_with("Connecte", "Connected"));
    assert!(!starts_with("", "Connected"));
    assert!(!starts_with("Disconnected", "Connected"));
    assert!(!starts_with("connected", "Connected"));
    assert!(starts_with("\u{e9}t\u{e9}", "\u{e9}t"));
}
