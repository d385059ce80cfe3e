use controlay::discovery::{
    beacon_name, is_whitespace, needs_new_payload, system_name_or_unknown, trim,
    BROADCAST_TARGET_PORT,
};

#[test]
fn whitespace_matches_std_for_every_char() {
    for c in (0u32..=0x10ffff).filter_map(char::from_u32) {
        assert_eq!(is_whitespace(c), c.is_whitespace(), "{:?}", c);
    }
}

#[test]
fn trim_matches_std() {
    for s in ["", "   ", "abc", "  abc", "abc  ", " a b ", "\t\nx\u{3000}", "\u{a0}\u{a0}", "é "] {
        assert_eq!(trim(s), s.trim());
    }
}

#[test]
fn beacon_uses_custom_name_unless_default_or_blank() {
    assert_eq!(beacon_name(false, "  Living-Room  ", "desktop"), "Living-Room");
    assert_eq!(beacon_name(true, "Living-Room", "desktop"), "desktop");
    assert_eq!(beacon_name(false, "   ", "desktop"), "desktop");
    assert_eq!(beacon_name(false, "", "desktop"), "desktop");
}

#[test]
fn system_name_falls_back_when_missing_or_blank() {
    assert_eq!(system_name_or_unknown(Some(" host \n".to_string())), "host");
    assert_eq!(system_name_or_unknown(Some("  ".to_string())), "Unknown-PC");
    assert_eq!(system_name_or_unknown(None), "Unknown-PC");
}

#[test]
fn payload_is_rebuilt_when_name_changes_or_missing() {
    let a = "desk".to_string();
    let b = "lap".to_string();
    assert!(!needs_new_payload(&a, &a, 10));
    assert!(needs_new_payload(&a, &b, 10));
    assert!(needs_new_payload(&a, &a, 0));
    assert_eq!(BROADCAST_TARGET_PORT, 8888);
}
