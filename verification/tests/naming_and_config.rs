use paperdump::config::Config;
use paperdump::naming::{artifact_file_name, fresh_artifact_name, TOKEN_LEN};

fn is_safe(c: char) -> bool {
    c == '_' || c == '-' || c.is_ascii_digit() || c.is_ascii_lowercase() || c.is_ascii_uppercase()
}

#[test]
fn artifact_name_joins_stamp_and_token() {
    let n = artifact_file_name("2024-01-02-03:04:05", "abc_XYZ");
    assert_eq!(n, String::from("2024-01-02-03:04:05-abc_XYZ.txt"));
}

#[test]
fn artifact_name_of_empty_parts() {
    let n = artifact_file_name("", "");
    assert_eq!(n, String::from("-.txt"));
}

#[test]
fn fresh_name_has_token_and_extension() {
    let n = fresh_artifact_name();
    // <timestamp>-<7-char-token>.txt
    assert!(n.ends_with(".txt"));
    assert!(n.len() >= TOKEN_LEN + 5);
    let token = &n[n.len() - 4 - TOKEN_LEN..n.len() - 4];
    assert_eq!(token.chars().count(), TOKEN_LEN);
    assert!(token.chars().all(is_safe));
    assert_eq!(n.as_bytes()[n.len() - 5 - TOKEN_LEN], b'-');
}

#[test]
fn fresh_names_in_the_same_second_are_distinct() {
    let a = fresh_artifact_name();
    let b = fresh_artifact_name();
    assert_ne!(a, b);
}

#[test]
fn config_keeps_its_fields() {
    let c = Config::new(
        String::from("/in"),
        String::from("/out"),
        String::from("eng"),
        5_000,
    );
    assert_eq!(c.watch_folder, String::from("/in"));
    assert_eq!(c.destination_folder, String::from("/out"));
    assert_eq!(c.language, String::from("eng"));
    assert_eq!(c.process_delay_ms, 5_000);
}
