use deadlock_rpc::clock::format_elapsed_secs;
use deadlock_rpc::text::{eq_ignore_ascii_case, replace_str, str_contains, str_eq, trim};

#[test]
fn ascii_case_insensitive_equality() {
    assert!(eq_ignore_ascii_case("DeadLock", "deadlock"));
    assert!(eq_ignore_ascii_case("", ""));
    assert!(!eq_ignore_ascii_case("deadlock", "deadlocks"));
    assert!(!eq_ignore_ascii_case("Ä", "ä"));
    assert!(eq_ignore_ascii_case("é", "é"));
}

#[test]
fn containment() {
    assert!(str_contains("abcjoinedpartyxyz", "joinedparty"));
    assert!(str_contains("abc", ""));
    assert!(str_contains("", ""));
    assert!(!str_contains("ab", "abc"));
    assert!(!str_contains("joinedpart", "joinedparty"));
    assert!(str_contains("ééx", "éx"));
}

#[test]
fn replacement_is_left_to_right_without_overlap() {
    assert_eq!(replace_str("aaa", "aa", "b"), "ba");
    assert_eq!(replace_str("x{t}y{t}", "{t}", "12"), "x12y12");
    assert_eq!(replace_str("", "{t}", "1"), "");
    assert_eq!(replace_str("héllo", "é", "e"), "hello");
}

#[test]
fn string_equality() {
    assert!(str_eq("hero_haze", "hero_haze"));
    assert!(!str_eq("hero_haze", "hero_hazE"));
    assert!(!str_eq("a", "ab"));
}

#[test]
fn clock_text_of_seconds() {
    assert_eq!(format_elapsed_secs(462), "07:42");
    assert_eq!(format_elapsed_secs(59), "00:59");
    assert_eq!(format_elapsed_secs(u64::MAX), "5124095576030431:00:15");
}

#[test]
fn trimming_removes_unicode_white_space_only() {
    assert_eq!(trim("  deadlock\n"), "deadlock");
    assert_eq!(trim("\u{3000}\u{85}dead lock\u{a0}\t"), "dead lock");
    assert_eq!(trim("\u{200b}x\u{200b}"), "\u{200b}x\u{200b}");
    assert_eq!(trim(" \n\t "), "");
    assert_eq!(trim(""), "");
    for s in ["\u{1680}a\u{2028}", "\u{2000}\u{200a}b\u{2029}\u{202f}\u{205f}", "\u{b}\u{c}c\r"] {
        assert_eq!(trim(s), s.trim());
    }
}
