use weather_wand::text::{concat2, concat3, repeat_str, replace_all, str_eq};

#[test]
fn replace_all_substitutes_every_occurrence() {
    assert_eq!(replace_all("a__X__b__X__c", "__X__", "1"), "a1b1c");
    assert_eq!(replace_all("__X____X__", "__X__", "y"), "yy");
}

#[test]
fn replace_all_leaves_unmatched_templates_unchanged() {
    // A template with no occurrence of the token resolves to itself.
    let template = "https://example.invalid/v1/search?name=__NAME__";
    assert_eq!(replace_all(template, "__LAT__", "40.71427"), template);
    assert_eq!(replace_all("plain text", "__NAME__", "x"), "plain text");
}

#[test]
fn replace_all_handles_empty_pattern_and_replacement() {
    assert_eq!(replace_all("abc", "", "x"), "abc");
    assert_eq!(replace_all("a_b_c", "_", ""), "abc");
}

#[test]
fn replace_all_does_not_rescan_replaced_text() {
    assert_eq!(replace_all("aaa", "aa", "a"), "aa");
    assert_eq!(replace_all("ab", "ab", "abab"), "abab");
}

#[test]
fn str_eq_compares_contents() {
    assert!(str_eq("kmh", "kmh"));
    assert!(!str_eq("kmh", "km"));
    assert!(!str_eq("kmh", "kmx"));
    assert!(str_eq("", ""));
}

#[test]
fn concat_builds_joined_strings() {
    assert_eq!(concat2("a", "b"), "ab");
    assert_eq!(concat3("a", "-", "b"), "a-b");
    assert_eq!(repeat_str("ab", 3), "ababab");
    assert_eq!(repeat_str("x", 0), "");
}
