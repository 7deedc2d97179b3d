use mygrep::errors::FatalError;
use mygrep::pattern::Pattern;

#[test]
fn invalid_pattern_is_fatal_with_its_own_exit_code() {
    let r = Pattern::new("foo(", true);
    let e = r.err().expect("an unclosed group must not compile");
    assert!(matches!(e, FatalError::InvalidPattern));
    assert_eq!(e.exit_code(), 2);
}

#[test]
fn invalid_pattern_in_insensitive_mode_is_fatal_too() {
    let r = Pattern::new("foo(", false);
    assert!(r.is_err());
}

#[test]
fn valid_pattern_compiles_in_both_modes() {
    assert!(Pattern::new("foo", true).is_ok());
    assert!(Pattern::new("foo", false).is_ok());
}

#[test]
fn default_mode_ignores_case() {
    let p = Pattern::new("foo", false).unwrap();
    assert!(p.is_match("foobar"));
    assert!(p.is_match("FOO"));
    assert!(p.is_match("FoObar"));
    assert!(!p.is_match("baz"));
}

#[test]
fn sensitive_mode_distinguishes_case() {
    let p = Pattern::new("foo", true).unwrap();
    assert!(p.is_match("foobar"));
    assert!(!p.is_match("FOO"));
}

#[test]
fn insensitive_wrapping_keeps_other_regex_semantics() {
    // Anchors, classes and repetition behave the same in both modes; only
    // case folding is toggled.
    let sensitive = Pattern::new("^a[bc]+$", true).unwrap();
    let insensitive = Pattern::new("^a[bc]+$", false).unwrap();
    for text in ["abc", "abcb", "a", "xabc", "abcx"] {
        assert_eq!(sensitive.is_match(text), insensitive.is_match(text));
    }
    assert!(insensitive.is_match("ABC"));
    assert!(!sensitive.is_match("ABC"));
}

#[test]
fn find_split_returns_parts_around_first_match() {
    let p = Pattern::new("o+", true).unwrap();
    let (pre, mat, post) = p.find_split("fooba").unwrap();
    assert_eq!(pre, "f");
    assert_eq!(mat, "oo");
    assert_eq!(post, "ba");
}

#[test]
fn find_split_is_none_without_a_match() {
    let p = Pattern::new("z", true).unwrap();
    assert!(p.find_split("fooba").is_none());
}

#[test]
fn find_split_picks_the_leftmost_match() {
    let p = Pattern::new("o", true).unwrap();
    let (pre, mat, post) = p.find_split("bolo").unwrap();
    assert_eq!(pre, "b");
    assert_eq!(mat, "o");
    assert_eq!(post, "lo");
}
