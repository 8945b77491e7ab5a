use weather_wand::updater::{
    get_current_version, is_newer_than_current, latest_version_from_body, parse_version,
    version_newer,
};

#[test]
fn current_version_is_reported() {
    assert_eq!(get_current_version(), "1.2.0");
}

#[test]
fn parse_version_reads_release_triples() {
    assert_eq!(parse_version("1.2.3"), Some((1, 2, 3)));
    assert_eq!(parse_version("0.0.0"), Some((0, 0, 0)));
    assert_eq!(parse_version("10.20.30"), Some((10, 20, 30)));
}

#[test]
fn parse_version_rejects_malformed_strings() {
    assert_eq!(parse_version(""), None);
    assert_eq!(parse_version("1.2"), None);
    assert_eq!(parse_version("1..2"), None);
    assert_eq!(parse_version("1.2.3.4"), None);
    assert_eq!(parse_version("a.b.c"), None);
    assert_eq!(parse_version("1.2.x"), None);
    assert_eq!(parse_version("99999999999999999999.0.0"), None);
}

#[test]
fn version_newer_compares_lexicographically() {
    assert!(version_newer((2, 0, 0), (1, 9, 9)));
    assert!(version_newer((1, 3, 0), (1, 2, 9)));
    assert!(version_newer((1, 2, 1), (1, 2, 0)));
    assert!(!version_newer((1, 2, 0), (1, 2, 0)));
    assert!(!version_newer((1, 1, 9), (1, 2, 0)));
}

#[test]
fn newer_release_is_detected_from_tag() {
    assert!(is_newer_than_current("v1.2.1"));
    assert!(is_newer_than_current("1.3.0"));
    assert!(!is_newer_than_current("v1.2.0"));
    assert!(!is_newer_than_current("0.9.9"));
    assert!(!is_newer_than_current("not-a-version"));
}

#[test]
fn latest_version_is_read_from_release_document() {
    let body = r#"{"tag_name":"v1.3.0","name":"Release 1.3.0"}"#;
    assert_eq!(latest_version_from_body(body), Some("1.3.0".to_string()));
}

#[test]
fn latest_version_keeps_tag_without_prefix() {
    let body = r#"{"tag_name":"1.4.2"}"#;
    assert_eq!(latest_version_from_body(body), Some("1.4.2".to_string()));
}

#[test]
fn latest_version_is_none_without_string_tag() {
    assert_eq!(latest_version_from_body(r#"{"tag_name":7}"#), None);
    assert_eq!(latest_version_from_body(r#"{"name":"x"}"#), None);
    assert_eq!(latest_version_from_body("not json"), None);
}
