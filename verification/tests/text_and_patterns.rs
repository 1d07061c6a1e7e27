use eml_nl::pattern::IdPattern;
use eml_nl::text::str_eq;

#[test]
fn str_eq_compares_characters() {
    assert!(str_eq("", ""));
    assert!(str_eq("geen", "geen"));
    assert!(!str_eq("geen", "Geen"));
    assert!(!str_eq("geen", "gee"));
    assert!(str_eq("één", "één"));
    assert!(!str_eq("één", "eén"));
}

#[test]
fn id_pattern_compiles_and_matches() {
    let p = IdPattern::compile("^a+$").unwrap();
    assert!(p.is_match("aaa"));
    assert!(!p.is_match("aab"));
    assert!(!p.is_match(""));
    let anywhere = IdPattern::compile("b").unwrap();
    assert!(anywhere.is_match("abc"));
}

#[test]
fn id_pattern_rejects_invalid_pattern() {
    assert!(IdPattern::compile("foo(bar").is_err());
}
