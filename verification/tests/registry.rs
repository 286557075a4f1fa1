use tsurch::registry::{lookup, resolve_alias, BodyShape, FormData, Method, RenderKind, TermTransform};

#[test]
fn resolve_known_aliases() {
    assert_eq!(resolve_alias("ddg"), "duckduckgo");
    assert_eq!(resolve_alias("duck"), "duckduckgo");
    assert_eq!(resolve_alias("wiki"), "wikipedia");
    assert_eq!(resolve_alias("wp"), "wikipedia");
    assert_eq!(resolve_alias("sp"), "startpage");
    assert_eq!(resolve_alias("start"), "startpage");
    assert_eq!(resolve_alias("rs"), "rustdoc");
    assert_eq!(resolve_alias("rdoc"), "rustdoc");
}

#[test]
fn resolve_unknown_passes_through() {
    assert_eq!(resolve_alias("duckduckgo"), "duckduckgo");
    assert_eq!(resolve_alias("google"), "google");
    assert_eq!(resolve_alias(""), "");
    assert_eq!(resolve_alias("DDG"), "DDG");
}

#[test]
fn lookup_duckduckgo() {
    let d = lookup("duckduckgo").unwrap();
    assert_eq!(d.method, Method::Post);
    assert_eq!(d.base_url, "https://lite.duckduckgo.com/lite");
    assert_eq!(d.body_shape, BodyShape::QueryField);
    assert_eq!(d.term_transform, TermTransform::Identity);
    assert_eq!(d.render, RenderKind::HtmlToText);
}

#[test]
fn lookup_startpage() {
    let d = lookup("startpage").unwrap();
    assert_eq!(d.method, Method::Post);
    assert_eq!(d.base_url, "https://startpage.com/sp/search");
    assert_eq!(d.body_shape, BodyShape::QueryField);
}

#[test]
fn lookup_wikipedia() {
    let d = lookup("wikipedia").unwrap();
    assert_eq!(d.method, Method::Get);
    assert_eq!(d.base_url, "https://en.wikipedia.org/w/index.php?action=render&title=");
    assert_eq!(d.body_shape, BodyShape::Empty);
}

#[test]
fn lookup_rustdoc() {
    let d = lookup("rustdoc").unwrap();
    assert_eq!(d.method, Method::Get);
    assert_eq!(d.base_url, "https://doc.rust-lang.org/");
    assert_eq!(d.body_shape, BodyShape::Empty);
}

#[test]
fn lookup_covers_every_alias_target() {
    for alias in ["ddg", "duck", "wiki", "wp", "sp", "start", "rs", "rdoc"] {
        let canonical = resolve_alias(alias);
        assert!(lookup(&canonical).is_some());
    }
}

#[test]
fn lookup_rejects_other_strings() {
    assert!(lookup("ddg").is_none());
    assert!(lookup("google").is_none());
    assert!(lookup("").is_none());
    assert!(lookup("Duckduckgo").is_none());
}

#[test]
fn form_from_query_empty_shape() {
    let f = FormData::from_query(BodyShape::Empty, "rust lang");
    assert_eq!(f.q, "");
}

#[test]
fn form_from_query_query_field() {
    let f = FormData::from_query(BodyShape::QueryField, "rust lang");
    assert_eq!(f.q, "rust lang");
}
