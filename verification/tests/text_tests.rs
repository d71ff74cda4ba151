use petals_core::text::{
    contains_lower, contains_str, ends_with, i32_to_dec, shell_escape, starts_with, str_eq,
    trim_eq, trim_str, u64_to_dec,
};

#[test]
fn substring_search() {
    assert!(contains_str("Connecting to the DHT...", "DHT"));
    assert!(contains_str("abc", ""));
    assert!(!contains_str("", "a"));
    assert!(!contains_str("abab", "abba"));
    assert!(contains_str("ababc", "abc"));
}

#[test]
fn prefix_and_suffix() {
    assert!(starts_with("  indented", "  "));
    assert!(!starts_with("x", "  "));
    assert!(ends_with("ValueError", "Error"));
    assert!(!ends_with("Errors", "Error"));
    assert!(str_eq("same", "same"));
    assert!(!str_eq("same", "Same"));
}

#[test]
fn trimming() {
    assert_eq!(trim_str("  ok \n"), "ok");
    assert_eq!(trim_str("ok"), "ok");
    assert_eq!(trim_str(" \t\r\n "), "");
    assert_eq!(trim_str(""), "");
    assert_eq!(trim_str("  a b  "), "a b");
    assert!(trim_eq("core_ok\n", "core_ok"));
    assert!(!trim_eq("core_ok extra", "core_ok"));
}

#[test]
fn case_insensitive_search() {
    assert!(contains_lower("NVIDIA GeForce", "nvidia"));
    assert!(contains_lower("GTX 1060", "gtx"));
    assert!(!contains_lower("Radeon", "nvidia"));
    // only the haystack is folded; the pattern is taken as given
    assert!(!contains_lower("nvidia", "NVIDIA"));
}

#[test]
fn shell_quoting() {
    assert_eq!(shell_escape("plain"), "plain");
    assert_eq!(shell_escape("it's"), "it'\\''s");
    assert_eq!(shell_escape("''"), "'\\'''\\''");
    assert_eq!(shell_escape(""), "");
}

#[test]
fn decimal_rendering() {
    assert_eq!(u64_to_dec(0), "0");
    assert_eq!(u64_to_dec(7), "7");
    assert_eq!(u64_to_dec(31337), "31337");
    assert_eq!(u64_to_dec(u64::MAX), "18446744073709551615");
    assert_eq!(i32_to_dec(-1), "-1");
    assert_eq!(i32_to_dec(127), "127");
    assert_eq!(i32_to_dec(i32::MIN), "-2147483648");
}
