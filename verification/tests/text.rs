use tiny_log::flags::{env_bool, env_i64, env_nonempty, env_u16, env_usize, is_truthy};
use tiny_log::num::{format_i64, format_u64, parse_i64, parse_u16, parse_u64, parse_usize};
use tiny_log::text::{
    byte_len_exceeds, contains, starts_with, str_eq, strip_prefix, trim, trim_end_char, trim_start,
    trim_start_char,
};

fn s(v: &str) -> Option<String> {
    Some(v.to_string())
}

#[test]
fn number_parsing_matches_str_parse() {
    assert_eq!(parse_u64("18446744073709551615"), Some(u64::MAX));
    assert_eq!(parse_u64("18446744073709551616"), None);
    assert_eq!(parse_u64("+7"), Some(7));
    assert_eq!(parse_u64("-7"), None);
    assert_eq!(parse_u64(""), None);
    assert_eq!(parse_u64(" 1"), None);
    assert_eq!(parse_i64("-9223372036854775808"), Some(i64::MIN));
    assert_eq!(parse_i64("9223372036854775808"), None);
    assert_eq!(parse_i64("-"), None);
    assert_eq!(parse_u16("65535"), Some(65535));
    assert_eq!(parse_u16("65536"), None);
    assert_eq!(parse_usize("42"), Some(42));
}

#[test]
fn number_formatting_round_trips() {
    for n in [0u64, 9, 10, 12345, u64::MAX] {
        assert_eq!(format_u64(n), n.to_string());
        assert_eq!(parse_u64(&format_u64(n)), Some(n));
    }
    for n in [0i64, -1, 42, i64::MIN, i64::MAX] {
        assert_eq!(format_i64(n), n.to_string());
        assert_eq!(parse_i64(&format_i64(n)), Some(n));
    }
}

#[test]
fn environment_switches() {
    assert!(is_truthy("On") && is_truthy("1") && is_truthy("YES") && is_truthy("true"));
    assert!(!is_truthy("0") && !is_truthy("enabled"));
    assert!(env_bool(&None, true));
    assert!(!env_bool(&s("nah"), true));
    assert_eq!(env_nonempty(&s("")), None);
    assert_eq!(env_nonempty(&s("v")), s("v"));
    assert_eq!(env_i64(&s("-3"), 7), -3);
    assert_eq!(env_i64(&s("x"), 7), 7);
    assert_eq!(env_u16(&s("70000"), 1), 1);
    assert_eq!(env_usize(&None, 5), 5);
}

#[test]
fn string_helpers() {
    assert_eq!(trim("\u{3000} hi \t"), "hi");
    assert_eq!(trim_start("  a "), "a ");
    assert_eq!(trim_end_char("http://x///", '/'), "http://x");
    assert_eq!(trim_start_char("//name", '/'), "name");
    assert!(contains("abcdef", "cde"));
    assert!(contains("abc", ""));
    assert!(!contains("ab", "abc"));
    assert!(starts_with("Bearer x", "Bearer "));
    assert_eq!(strip_prefix("VmRSS: 1", "VmRSS:").as_deref(), Some(" 1"));
    assert_eq!(strip_prefix("x", "VmRSS:"), None);
    assert!(str_eq("é", "é"));
    assert!(byte_len_exceeds("ééé", 5));
    assert!(!byte_len_exceeds("ééé", 6));
}
