use std::str::FromStr;
use types::source_item::{FuzzyText, MatchScope};

#[test]
fn fuzzy_text_new_keeps_fields() {
    let line = "crates/printer/src/lib.rs:199:26:        let query";
    let fuzzy = FuzzyText::new(&line[33..], 33);
    assert_eq!(fuzzy.text, "        let query");
    assert_eq!(fuzzy.matching_start, 33);
    let copy = fuzzy.clone();
    assert_eq!(copy.text, fuzzy.text);
    assert_eq!(copy.matching_start, 33);
}

#[test]
fn fuzzy_text_new_empty_text() {
    let fuzzy = FuzzyText::new("", 0);
    assert_eq!(fuzzy.text, "");
    assert_eq!(fuzzy.matching_start, 0);
}

#[test]
fn match_scope_default_is_full() {
    assert!(matches!(MatchScope::default(), MatchScope::Full));
}

#[test]
fn match_scope_from_canonical_names() {
    assert!(matches!(MatchScope::from("full"), MatchScope::Full));
    assert!(matches!(MatchScope::from("tagname"), MatchScope::TagName));
    assert!(matches!(MatchScope::from("filename"), MatchScope::FileName));
    assert!(matches!(MatchScope::from("grepline"), MatchScope::GrepLine));
}

#[test]
fn match_scope_from_ignores_case() {
    assert!(matches!(MatchScope::from("TagName"), MatchScope::TagName));
    assert!(matches!(MatchScope::from("FILENAME"), MatchScope::FileName));
    assert!(matches!(MatchScope::from("GrepLine"), MatchScope::GrepLine));
    assert!(matches!(MatchScope::from("FuLL"), MatchScope::Full));
}

#[test]
fn match_scope_from_unknown_is_full() {
    assert!(matches!(MatchScope::from("grep"), MatchScope::Full));
    assert!(matches!(MatchScope::from(""), MatchScope::Full));
    assert!(matches!(MatchScope::from("file name"), MatchScope::Full));
    assert!(matches!(MatchScope::from(" tagname"), MatchScope::Full));
}

#[test]
fn match_scope_from_string() {
    assert!(matches!(MatchScope::from(String::from("GREPLINE")), MatchScope::GrepLine));
    assert!(matches!(MatchScope::from(String::from("tags")), MatchScope::Full));
}

#[test]
fn match_scope_from_str_never_fails() {
    assert!(matches!(MatchScope::from_str("FileName"), Ok(MatchScope::FileName)));
    assert!(matches!(MatchScope::from_str("nonsense"), Ok(MatchScope::Full)));
    let parsed: MatchScope = "tagName".parse().unwrap();
    assert!(matches!(parsed, MatchScope::TagName));
}

#[test]
fn match_scope_from_name_lowercases() {
    assert!(matches!(MatchScope::from_name("TAGNAME"), MatchScope::TagName));
    assert!(matches!(MatchScope::from_name("GrEpLiNe"), MatchScope::GrepLine));
}

#[test]
fn match_scope_from_lowercase_is_exact() {
    assert!(matches!(MatchScope::from_lowercase("filename"), MatchScope::FileName));
    assert!(matches!(MatchScope::from_lowercase("FileName"), MatchScope::Full));
    assert!(matches!(MatchScope::from_lowercase("grepline "), MatchScope::Full));
}

#[test]
fn match_scope_from_non_ascii_is_full() {
    assert!(matches!(MatchScope::from("tägname"), MatchScope::Full));
    assert!(matches!(MatchScope::from("ＦＵＬＬ"), MatchScope::Full));
}

#[test]
fn match_scope_ascii_case_insensitive_law() {
    let names = ["grepline", "GREPLINE", "GrepLine", "gREPlINE"];
    for name in names {
        assert!(name.eq_ignore_ascii_case("grepline"));
        assert!(matches!(MatchScope::from(name), MatchScope::GrepLine));
    }
    assert!(matches!(MatchScope::from("TAG-NAME"), MatchScope::Full));
    assert!(matches!(MatchScope::from("Tag_Name"), MatchScope::Full));
}

#[test]
fn match_scope_from_other_string_types() {
    let owned = String::from("FileName");
    assert!(matches!(MatchScope::from(&owned), MatchScope::FileName));
    let boxed: Box<str> = Box::from("TAGNAME");
    assert!(matches!(MatchScope::from(boxed), MatchScope::TagName));
    let borrowed: std::borrow::Cow<str> = std::borrow::Cow::Borrowed("grepLine");
    assert!(matches!(MatchScope::from(borrowed), MatchScope::GrepLine));
    let cow_owned: std::borrow::Cow<str> = std::borrow::Cow::Owned(String::from("unknown"));
    assert!(matches!(MatchScope::from(cow_owned), MatchScope::Full));
}
