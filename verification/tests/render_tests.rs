use mygrep::pattern::Pattern;
use mygrep::render::render_source;
use mygrep::resolve::DisplayContext;

fn ctx(stdout_piped: bool, show_numbers: bool) -> DisplayContext {
    DisplayContext {
        stdin_piped: true,
        stdout_piped,
        show_numbers,
        read_paths: false,
        case_sensitive: false,
    }
}

fn lines(texts: &[&str]) -> Vec<String> {
    texts.iter().map(|t| t.to_string()).collect()
}

#[test]
fn scenario_default_mode_emits_both_casings_in_order() {
    let p = Pattern::new("foo", false).unwrap();
    let out = render_source(&p, &lines(&["foobar", "baz", "FOO"]), None, &ctx(true, false));
    assert_eq!(out, vec!["foobar".to_string(), "FOO".to_string()]);
}

#[test]
fn scenario_sensitive_mode_emits_exact_casing_only() {
    let p = Pattern::new("foo", true).unwrap();
    let out = render_source(&p, &lines(&["foobar", "baz", "FOO"]), None, &ctx(true, false));
    assert_eq!(out, vec!["foobar".to_string()]);
}

#[test]
fn scenario_piped_text_without_match_emits_nothing() {
    let p = Pattern::new("x", false).unwrap();
    let out = render_source(&p, &lines(&["a", "b", "c"]), None, &ctx(true, false));
    assert!(out.is_empty());
}

#[test]
fn line_numbers_are_the_position_within_the_source() {
    let p = Pattern::new("foo", false).unwrap();
    let out = render_source(&p, &lines(&["foobar", "baz", "FOO"]), None, &ctx(true, true));
    assert_eq!(out, vec!["1: foobar".to_string(), "3: FOO".to_string()]);
}

#[test]
fn line_numbers_do_not_depend_on_prior_sources() {
    let p = Pattern::new("foo", false).unwrap();
    let first = render_source(&p, &lines(&["foo", "foo"]), None, &ctx(true, true));
    assert_eq!(first, vec!["1: foo".to_string(), "2: foo".to_string()]);
    // A second source starts counting at 1 again.
    let second = render_source(&p, &lines(&["baz", "foo"]), None, &ctx(true, true));
    assert_eq!(second, vec!["2: foo".to_string()]);
}

#[test]
fn two_digit_line_numbers_render_in_full() {
    let p = Pattern::new("foo", false).unwrap();
    let mut texts = vec!["baz"; 11];
    texts.push("foo");
    let out = render_source(&p, &lines(&texts), None, &ctx(true, true));
    assert_eq!(out, vec!["12: foo".to_string()]);
}

#[test]
fn banner_precedes_first_match_of_named_source() {
    let p = Pattern::new("foo", false).unwrap();
    let name = "notes.txt".to_string();
    let out = render_source(
        &p,
        &lines(&["foobar", "baz", "FOO"]),
        Some(name.as_str()),
        &ctx(true, false),
    );
    assert_eq!(
        out,
        vec!["\n\nnotes.txt".to_string(), "foobar".to_string(), "FOO".to_string()]
    );
}

#[test]
fn named_source_without_match_prints_nothing_not_even_a_banner() {
    let p = Pattern::new("zzz", false).unwrap();
    let name = "notes.txt".to_string();
    let out = render_source(&p, &lines(&["a", "b"]), Some(name.as_str()), &ctx(true, false));
    assert!(out.is_empty());
}

#[test]
fn piped_output_carries_no_ansi_styling() {
    let p = Pattern::new("foo", false).unwrap();
    let name = "notes.txt".to_string();
    let out = render_source(
        &p,
        &lines(&["foobar", "FOO"]),
        Some(name.as_str()),
        &ctx(true, true),
    );
    for line in &out {
        assert!(!line.contains('\u{1b}'));
    }
}

#[test]
fn a_line_with_several_matches_is_emitted_exactly_once() {
    let p = Pattern::new("o", false).unwrap();
    let out = render_source(&p, &lines(&["bolo", "xyz", "oo"]), None, &ctx(true, false));
    assert_eq!(out, vec!["bolo".to_string(), "oo".to_string()]);
}

#[test]
fn interactive_output_paints_the_first_span_red() {
    let p = Pattern::new("foo", false).unwrap();
    let out = render_source(&p, &lines(&["foobar", "baz", "FOO"]), None, &ctx(false, false));
    assert_eq!(
        out,
        vec![
            "\u{1b}[31mfoo\u{1b}[0mbar".to_string(),
            "\u{1b}[31mFOO\u{1b}[0m".to_string(),
        ]
    );
}

#[test]
fn interactive_output_paints_only_the_first_of_several_spans() {
    let p = Pattern::new("o", false).unwrap();
    let out = render_source(&p, &lines(&["bolo"]), None, &ctx(false, false));
    assert_eq!(out, vec!["b\u{1b}[31mo\u{1b}[0mlo".to_string()]);
}

#[test]
fn interactive_banner_is_cyan_and_numbers_follow_it() {
    let p = Pattern::new("foo", false).unwrap();
    let name = "notes.txt".to_string();
    let out = render_source(
        &p,
        &lines(&["baz", "foobar"]),
        Some(name.as_str()),
        &ctx(false, true),
    );
    assert_eq!(
        out,
        vec![
            "\n\n\u{1b}[36mnotes.txt\u{1b}[0m".to_string(),
            "2: \u{1b}[31mfoo\u{1b}[0mbar".to_string(),
        ]
    );
}

#[test]
fn unreadable_sources_contribute_nothing_and_readable_ones_keep_their_banner() {
    // A directory walk hands every readable source's lines to the renderer;
    // an unreadable entry is skipped before rendering, so the run's output is
    // exactly the readable, matching source with its banner.
    let p = Pattern::new("foo", false).unwrap();
    let name = "tree/readable.txt".to_string();
    let out = render_source(
        &p,
        &lines(&["foo inside"]),
        Some(name.as_str()),
        &ctx(true, false),
    );
    assert_eq!(
        out,
        vec!["\n\ntree/readable.txt".to_string(), "foo inside".to_string()]
    );
}
