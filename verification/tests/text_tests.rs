use n8n_launcher::text::{contains_str, i32_to_string, join_strings, trim, u64_to_string};

#[test]
fn trim_removes_both_ends() {
    assert_eq!(trim("  Docker version 24.0.6\n"), "Docker version 24.0.6");
}

#[test]
fn trim_keeps_inner_whitespace() {
    assert_eq!(trim("\ta b\tc "), "a b\tc");
}

#[test]
fn trim_of_blank_is_empty() {
    assert_eq!(trim("   \n\t"), "");
    assert_eq!(trim(""), "");
}

#[test]
fn trim_handles_unicode_whitespace() {
    assert_eq!(trim("\u{a0}version\u{2003}"), "version");
}

#[test]
fn trim_no_whitespace_is_identity() {
    assert_eq!(trim("n8nio/n8n"), "n8nio/n8n");
}

#[test]
fn contains_finds_substring() {
    assert!(contains_str("docker-n8n-editor-1", "n8n"));
    assert!(contains_str("n8n", "n8n"));
}

#[test]
fn contains_rejects_absent_substring() {
    assert!(!contains_str("redis postgres", "n8n"));
    assert!(!contains_str("n8", "n8n"));
    assert!(!contains_str("", "n8n"));
}

#[test]
fn contains_empty_pattern_always_holds() {
    assert!(contains_str("anything", ""));
    assert!(contains_str("", ""));
}

#[test]
fn join_with_separator() {
    let parts = vec![
        String::from("Current directory: \"/tmp\""),
        String::from("Project root: \"/\""),
    ];
    assert_eq!(
        join_strings(&parts, "\n- "),
        "Current directory: \"/tmp\"\n- Project root: \"/\""
    );
}

#[test]
fn join_single_part_has_no_separator() {
    let parts = vec![String::from("only")];
    assert_eq!(join_strings(&parts, "\n- "), "only");
}

#[test]
fn join_of_nothing_is_empty() {
    let parts: Vec<String> = Vec::new();
    assert_eq!(join_strings(&parts, ", "), "");
}

#[test]
fn renders_unsigned_decimals() {
    assert_eq!(u64_to_string(0), "0");
    assert_eq!(u64_to_string(7), "7");
    assert_eq!(u64_to_string(42), "42");
    assert_eq!(u64_to_string(5678), "5678");
    assert_eq!(u64_to_string(18446744073709551615), "18446744073709551615");
}

#[test]
fn renders_signed_decimals() {
    assert_eq!(i32_to_string(0), "0");
    assert_eq!(i32_to_string(137), "137");
    assert_eq!(i32_to_string(-1), "-1");
    assert_eq!(i32_to_string(i32::MIN), "-2147483648");
    assert_eq!(i32_to_string(i32::MAX), "2147483647");
}
