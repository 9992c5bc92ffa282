use assume_role::error::LaunchError;
use assume_role::tag::{parse_tags, SessionTag};

#[test]
fn tag_splits_at_separator() {
    let t = SessionTag::parse("env=prod").unwrap();
    assert_eq!(t.key, "env");
    assert_eq!(t.value, "prod");
}

#[test]
fn tag_splits_at_first_separator_only() {
    let t = SessionTag::parse("a=b=c").unwrap();
    assert_eq!(t.key, "a");
    assert_eq!(t.value, "b=c");
}

#[test]
fn tag_with_empty_key_and_value() {
    let t = SessionTag::parse("=").unwrap();
    assert_eq!(t.key, "");
    assert_eq!(t.value, "");
}

#[test]
fn tag_with_multibyte_characters() {
    let t = SessionTag::parse("équipe=café").unwrap();
    assert_eq!(t.key, "équipe");
    assert_eq!(t.value, "café");
}

#[test]
fn tag_without_separator_is_refused() {
    match SessionTag::parse("bad-tag") {
        Err(LaunchError::InvalidTag { tag }) => assert_eq!(tag, "bad-tag"),
        other => panic!("unexpected {:?}", other),
    }
}

#[test]
fn empty_tag_is_refused() {
    assert!(matches!(SessionTag::parse(""), Err(LaunchError::InvalidTag { .. })));
}

#[test]
fn tags_parse_in_order() {
    let raw = vec!["env=prod".to_string(), "team=core".to_string()];
    let tags = parse_tags(&raw).unwrap();
    assert_eq!(tags.len(), 2);
    assert_eq!(tags[0].key, "env");
    assert_eq!(tags[1].value, "core");
}

#[test]
fn first_bad_tag_is_reported() {
    let raw = vec!["env=prod".to_string(), "bad-tag".to_string(), "worse".to_string()];
    match parse_tags(&raw) {
        Err(LaunchError::InvalidTag { tag }) => assert_eq!(tag, "bad-tag"),
        other => panic!("unexpected {:?}", other),
    }
}

#[test]
fn no_tags_is_fine() {
    assert!(parse_tags(&Vec::new()).unwrap().is_empty());
}
