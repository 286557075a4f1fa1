//! The source registry: the fixed table of search sources, the alias table
//! that maps short names to canonical ones, and the form data that a POST
//! source submits.

use vstd::prelude::*;
use crate::textops::str_eq;

verus! {

/// The HTTP verb a source is queried with.
#[derive(Clone, Copy, Debug, PartialEq, Eq, Structural)]
pub enum Method {
    Get,
    Post,
}

/// How the search term is carried in the request body.
#[derive(Clone, Copy, Debug, PartialEq, Eq, Structural)]
pub enum BodyShape {
    /// No body: the term travels in the URL instead.
    Empty,
    /// A single-field form whose `q` field holds the term.
    QueryField,
}

/// The transformation applied to the raw search term before use.
/// Every built-in source leaves the term unchanged.
#[derive(Clone, Copy, Debug, PartialEq, Eq, Structural)]
pub enum TermTransform {
    Identity,
}

/// How a successful response is turned into display text.
#[derive(Clone, Copy, Debug, PartialEq, Eq, Structural)]
pub enum RenderKind {
    /// Convert the HTML body to column-wrapped plain text.
    HtmlToText,
}

/// Data submitted as the request form.
#[derive(Debug)]
pub struct FormData {
    pub q: String,
}

impl FormData {
    /// Embeds the query text into the form as the body shape asks:
    /// an empty form for `Empty`, the term under `q` for `QueryField`.
    pub fn from_query(form: BodyShape, query: &str) -> (r: FormData)
        ensures
            form is Empty ==> r.q@ === Seq::<char>::empty(),
            form is QueryField ==> r.q@ == query@,
    {
        match form {
            BodyShape::Empty => FormData { q: String::new() },
            BodyShape::QueryField => FormData { q: query.to_owned() },
        }
    }
}

/// The ghost image of a source descriptor: what the contracts speak of.
pub ghost struct SourceInfo {
    pub method: Method,
    pub base_url: Seq<char>,
    pub body_shape: BodyShape,
    pub term_transform: TermTransform,
    pub render: RenderKind,
}

/// One search source: how to build its request and render its response.
#[derive(Debug)]
pub struct SourceDescriptor {
    pub method: Method,
    pub base_url: String,
    pub body_shape: BodyShape,
    pub term_transform: TermTransform,
    pub render: RenderKind,
}

impl View for SourceDescriptor {
    type V = SourceInfo;

    open spec fn view(&self) -> SourceInfo {
        SourceInfo {
            method: self.method,
            base_url: self.base_url@,
            body_shape: self.body_shape,
            term_transform: self.term_transform,
            render: self.render,
        }
    }
}

/// The canonical name an alias stands for; an unknown string stands for
/// itself and must still be validated against the registry.
pub open spec fn spec_resolve_alias(s: Seq<char>) -> Seq<char> {
    if s == "ddg"@ || s == "duck"@ {
        "duckduckgo"@
    } else if s == "wiki"@ || s == "wp"@ {
        "wikipedia"@
    } else if s == "sp"@ || s == "start"@ {
        "startpage"@
    } else if s == "rs"@ || s == "rdoc"@ {
        "rustdoc"@
    } else {
        s
    }
}

/// Resolves a short alias to its canonical source name; a string that is
/// not a known alias is returned unchanged.
pub fn resolve_alias(raw: &str) -> (r: String)
    ensures
        r@ == spec_resolve_alias(raw@),
{
    if str_eq(raw, "ddg") || str_eq(raw, "duck") {
        "duckduckgo".to_owned()
    } else if str_eq(raw, "wiki") || str_eq(raw, "wp") {
        "wikipedia".to_owned()
    } else if str_eq(raw, "sp") || str_eq(raw, "start") {
        "startpage".to_owned()
    } else if str_eq(raw, "rs") || str_eq(raw, "rdoc") {
        "rustdoc".to_owned()
    } else {
        raw.to_owned()
    }
}

/// The registry as a mathematical table: the descriptor of each canonical
/// source name, `None` for every other string.
pub open spec fn spec_lookup(name: Seq<char>) -> Option<SourceInfo> {
    if name == "duckduckgo"@ {
        Some(SourceInfo {
            method: Method::Post,
            base_url: "https://lite.duckduckgo.com/lite"@,
            body_shape: BodyShape::QueryField,
            term_transform: TermTransform::Identity,
            render: RenderKind::HtmlToText,
        })
    } else if name == "startpage"@ {
        Some(SourceInfo {
            method: Method::Post,
            base_url: "https://startpage.com/sp/search"@,
            body_shape: BodyShape::QueryField,
            term_transform: TermTransform::Identity,
            render: RenderKind::HtmlToText,
        })
    } else if name == "wikipedia"@ {
        Some(SourceInfo {
            method: Method::Get,
            base_url: "https://en.wikipedia.org/w/index.php?action=render&title="@,
            body_shape: BodyShape::Empty,
            term_transform: TermTransform::Identity,
            render: RenderKind::HtmlToText,
        })
    } else if name == "rustdoc"@ {
        Some(SourceInfo {
            method: Method::Get,
            base_url: "https://doc.rust-lang.org/"@,
            body_shape: BodyShape::Empty,
            term_transform: TermTransform::Identity,
            render: RenderKind::HtmlToText,
        })
    } else {
        None
    }
}

/// Looks a canonical name up in the registry: the descriptor for each of
/// the built-in sources, `None` for any other string. Never panics.
pub fn lookup(canonical: &str) -> (r: Option<SourceDescriptor>)
    ensures
        r is Some <==> spec_lookup(canonical@) is Some,
        r matches Some(d) ==> d@ == spec_lookup(canonical@).unwrap(),
{
    if str_eq(canonical, "duckduckgo") {
        Some(SourceDescriptor {
            method: Method::Post,
            base_url: "https://lite.duckduckgo.com/lite".to_owned(),
            body_shape: BodyShape::QueryField,
            term_transform: TermTransform::Identity,
            render: RenderKind::HtmlToText,
        })
    } else if str_eq(canonical, "startpage") {
        Some(SourceDescriptor {
            method: Method::Post,
            base_url: "https://startpage.com/sp/search".to_owned(),
            body_shape: BodyShape::QueryField,
            term_transform: TermTransform::Identity,
            render: RenderKind::HtmlToText,
        })
    } else if str_eq(canonical, "wikipedia") {
        Some(SourceDescriptor {
            method: Method::Get,
            base_url: "https://en.wikipedia.org/w/index.php?action=render&title=".to_owned(),
            body_shape: BodyShape::Empty,
            term_transform: TermTransform::Identity,
            render: RenderKind::HtmlToText,
        })
    } else if str_eq(canonical, "rustdoc") {
        Some(SourceDescriptor {
            method: Method::Get,
            base_url: "https://doc.rust-lang.org/".to_owned(),
            body_shape: BodyShape::Empty,
            term_transform: TermTransform::Identity,
            render: RenderKind::HtmlToText,
        })
    } else {
        None
    }
}

/// Every canonical name that an alias maps to is present in the registry:
/// resolving any known alias yields a name that `lookup` accepts.
pub proof fn lemma_aliases_resolve(a: Seq<char>)
    requires
        a == "ddg"@ || a == "duck"@ || a == "wiki"@ || a == "wp"@ || a == "sp"@
            || a == "start"@ || a == "rs"@ || a == "rdoc"@,
    ensures
        spec_lookup(spec_resolve_alias(a)) is Some,
{
    reveal_strlit("ddg");
    reveal_strlit("duck");
    reveal_strlit("wiki");
    reveal_strlit("wp");
    reveal_strlit("sp");
    reveal_strlit("start");
    reveal_strlit("rs");
    reveal_strlit("rdoc");
    reveal_strlit("duckduckgo");
    reveal_strlit("wikipedia");
    reveal_strlit("startpage");
    reveal_strlit("rustdoc");
}

} // verus!
