use tsurch::failure::Failure;
use tsurch::render::{normalize_rendered, parse_usize_str, parse_width, render_response};

#[test]
fn width_falls_back_when_absent() {
    assert_eq!(parse_width(None), 80);
}

#[test]
fn width_falls_back_when_non_numeric() {
    assert_eq!(parse_width(Some("")), 80);
    assert_eq!(parse_width(Some("abc")), 80);
    assert_eq!(parse_width(Some("12a")), 80);
    assert_eq!(parse_width(Some("-5")), 80);
    assert_eq!(parse_width(Some(" 42")), 80);
    assert_eq!(parse_width(Some("+")), 80);
    assert_eq!(parse_width(Some("99999999999999999999999999")), 80);
}

#[test]
fn width_uses_numeric_hint() {
    assert_eq!(parse_width(Some("100")), 100);
    assert_eq!(parse_width(Some("0")), 0);
    assert_eq!(parse_width(Some("+42")), 42);
    assert_eq!(parse_width(Some("007")), 7);
}

#[test]
fn parse_matches_std() {
    for s in ["", "abc", "12a", "-5", "+", "100", "0", "+42", "007", "18446744073709551615",
        "18446744073709551616"] {
        assert_eq!(parse_usize_str(s), s.parse::<usize>().ok(), "input {:?}", s);
    }
}

#[test]
fn glyph_substitution_is_exact() {
    assert_eq!(normalize_rendered("a\u{2500}b"), "a-b");
    assert_eq!(normalize_rendered("a\u{2502}b"), "a|b");
    assert_eq!(normalize_rendered("a\u{253C}b"), "a+b");
    assert_eq!(normalize_rendered("a\u{FFFD}b"), "a<?>b");
    assert_eq!(
        normalize_rendered("\u{2500}\u{2502}\u{253C}\u{FFFD}"),
        "-|+<?>"
    );
}

#[test]
fn normalization_keeps_other_text() {
    assert_eq!(normalize_rendered(""), "");
    assert_eq!(normalize_rendered("plain text"), "plain text");
    assert_eq!(normalize_rendered("caf\u{E9}"), "caf\u{E9}");
}

#[test]
fn render_converts_html() {
    let out = render_response("<p>hello world</p>", Some("80")).unwrap();
    assert!(out.contains("hello world"));
    assert!(!out.contains("<p>"));
}

#[test]
fn render_wraps_to_hint_width() {
    let html = "<p>aaaa bbbb cccc dddd eeee ffff gggg hhhh</p>";
    let narrow = render_response(html, Some("10")).unwrap();
    let wide = render_response(html, Some("200")).unwrap();
    assert!(narrow.lines().count() > wide.lines().count());
    assert!(narrow.lines().all(|l| l.chars().count() <= 10));
}

#[test]
fn render_uses_default_width_for_bad_hint() {
    let html = "<p>aaaa bbbb cccc dddd eeee ffff gggg hhhh</p>";
    let fallback = render_response(html, Some("not a number")).unwrap();
    let explicit = render_response(html, Some("80")).unwrap();
    let absent = render_response(html, None).unwrap();
    assert_eq!(fallback, explicit);
    assert_eq!(absent, explicit);
}

#[test]
fn render_fails_when_width_is_too_narrow() {
    let f = render_response("<p>hello world</p>", Some("0")).unwrap_err();
    assert!(matches!(f, Failure::RenderFailed));
    assert_eq!(f.exit_code(), 5);
    assert_eq!(f.message(), "Failed to construct results text");
}

#[test]
fn render_normalizes_table_borders() {
    let out = render_response("<table><tr><td>a</td><td>b</td></tr></table>", Some("40"))
        .unwrap();
    assert!(!out.contains('\u{2500}'));
    assert!(!out.contains('\u{2502}'));
    assert!(!out.contains('\u{253C}'));
}
