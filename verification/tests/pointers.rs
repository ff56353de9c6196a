use rustval::resolve_ref::{parse_ref, same_text};

#[test]
fn parse_ref_with_fragment_prefix() {
    assert_eq!(
        parse_ref("#/components/schemas/User"),
        vec!["components", "schemas", "User"]
    );
}

#[test]
fn parse_ref_without_prefix_gives_same_segments() {
    assert_eq!(
        parse_ref("components/schemas/User"),
        vec!["components", "schemas", "User"]
    );
    assert_eq!(
        parse_ref("components/schemas/User"),
        parse_ref("#/components/schemas/User")
    );
}

#[test]
fn parse_ref_of_empty_text_is_one_empty_segment() {
    assert_eq!(parse_ref(""), vec![""]);
}

#[test]
fn parse_ref_keeps_empty_segments() {
    assert_eq!(parse_ref("a//b"), vec!["a", "", "b"]);
    assert_eq!(parse_ref("/"), vec!["", ""]);
    assert_eq!(parse_ref("a/"), vec!["a", ""]);
    assert_eq!(parse_ref("/a"), vec!["", "a"]);
    assert_eq!(parse_ref("#/"), vec![""]);
}

#[test]
fn parse_ref_strips_one_leading_prefix() {
    assert_eq!(parse_ref("#/#/a"), vec!["#", "a"]);
    assert_eq!(parse_ref("#/#/#/a/b"), vec!["#", "#", "a", "b"]);
    assert_eq!(parse_ref("#/a/#/b"), vec!["a", "#", "b"]);
}

#[test]
fn parse_ref_leaves_a_lone_hash() {
    assert_eq!(parse_ref("#"), vec!["#"]);
    assert_eq!(parse_ref("#a/b"), vec!["#a", "b"]);
    assert_eq!(parse_ref("##/a"), vec!["##", "a"]);
}

#[test]
fn parse_ref_does_not_decode() {
    assert_eq!(parse_ref("#/a%2Fb/c~1d"), vec!["a%2Fb", "c~1d"]);
}

#[test]
fn parse_ref_counts_characters_not_bytes() {
    assert_eq!(
        parse_ref("#/components/schemas/Bücher/日本"),
        vec!["components", "schemas", "Bücher", "日本"]
    );
}

#[test]
fn parse_ref_without_separator_is_one_segment() {
    assert_eq!(parse_ref("User"), vec!["User"]);
}

#[test]
fn same_text_compares_characters() {
    assert!(same_text("", ""));
    assert!(same_text("schemas", "schemas"));
    assert!(!same_text("schemas", "schema"));
    assert!(!same_text("schemas", "schemaz"));
    assert!(!same_text("", "a"));
    assert!(same_text("日本", "日本"));
    assert!(!same_text("日本", "日本語"));
}
