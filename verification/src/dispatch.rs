//! The dispatcher: from a raw source name and a raw search term to the one
//! concrete request that is submitted — canonical name, URL, verb and form
//! body — and the fixed header attached to every request.

use vstd::prelude::*;
use vstd::string::StringExecFns;
use crate::failure::Failure;
use crate::registry::BodyShape;
use crate::registry::FormData;
use crate::registry::Method;
use crate::registry::SourceDescriptor;
use crate::registry::SourceInfo;
use crate::registry::TermTransform;
use crate::registry::lookup;
use crate::registry::resolve_alias;
use crate::registry::spec_lookup;
use crate::registry::spec_resolve_alias;

verus! {

/// The fixed, clearly fake browser identification attached to every
/// request.
pub fn user_agent() -> (r: String)
    ensures
        r@ == "Mozilla/5.0 (Windows NT 6.1; Win64; x64; rv:80.0) Gecko/20100101 Firefox/80.0"@,
{
    "Mozilla/5.0 (Windows NT 6.1; Win64; x64; rv:80.0) Gecko/20100101 Firefox/80.0".to_owned()
}

/// What a term transform does to a term: the identity leaves it unchanged.
pub open spec fn spec_apply_transform(t: TermTransform, s: Seq<char>) -> Seq<char> {
    match t {
        TermTransform::Identity => s,
    }
}

/// Applies a source's term transform to the raw search term.
pub fn apply_term_transform(t: TermTransform, term: &str) -> (r: String)
    ensures
        r@ == spec_apply_transform(t, term@),
{
    match t {
        TermTransform::Identity => term.to_owned(),
    }
}

/// One concrete request, ready to submit: the verb, the final URL, and the
/// form body.
#[derive(Debug)]
pub struct RequestPlan {
    pub method: Method,
    pub url: String,
    pub form: FormData,
}

/// What `build_request` owes for a descriptor with ghost image `info` and
/// effective term `term`: a GET URL is the base URL with the term appended
/// byte for byte, nothing added and nothing escaped; a POST URL is the base
/// URL unchanged; the form's one field `q` holds the term exactly when the
/// body shape asks for it, and is empty otherwise.
pub open spec fn spec_request_plan(r: RequestPlan, info: SourceInfo, term: Seq<char>) -> bool {
    &&& r.method == info.method
    &&& (info.method is Get ==> r.url@ == info.base_url + term)
    &&& (info.method is Post ==> r.url@ == info.base_url)
    &&& (info.body_shape is QueryField ==> r.form.q@ == term)
    &&& (info.body_shape is Empty ==> r.form.q@ === Seq::<char>::empty())
}

/// Builds the concrete request for a source from the effective search
/// term.
pub fn build_request(d: &SourceDescriptor, term: &str) -> (r: RequestPlan)
    ensures
        spec_request_plan(r, d@, term@),
{
    let url = match d.method {
        Method::Get => d.base_url.clone().concat(term),
        Method::Post => d.base_url.clone(),
    };
    RequestPlan { method: d.method, url, form: FormData::from_query(d.body_shape, term) }
}

/// Everything the transport needs for one search: the canonical source
/// name and the concrete request.
#[derive(Debug)]
pub struct SearchPlan {
    pub canonical: String,
    pub request: RequestPlan,
}

/// Plans one search: resolves the raw source name through the alias table,
/// looks the canonical name up in the registry, applies the source's term
/// transform, and builds the request. An unresolvable name is the
/// `UnknownSource` failure carrying the raw name; every name the registry
/// knows yields a plan.
pub fn plan_search(source_raw: &str, term_raw: &str) -> (r: Result<SearchPlan, Failure>)
    ensures
        ({
            let c = spec_resolve_alias(source_raw@);
            match r {
                Ok(p) => {
                    &&& spec_lookup(c) is Some
                    &&& p.canonical@ == c
                    &&& spec_request_plan(
                        p.request,
                        spec_lookup(c).unwrap(),
                        spec_apply_transform(spec_lookup(c).unwrap().term_transform, term_raw@),
                    )
                },
                Err(f) => {
                    &&& spec_lookup(c) is None
                    &&& f matches Failure::UnknownSource(raw) && raw@ == source_raw@
                },
            }
        }),
{
    let canonical = resolve_alias(source_raw);
    match lookup(canonical.as_str()) {
        Some(descriptor) => {
            let term = apply_term_transform(descriptor.term_transform, term_raw);
            let request = build_request(&descriptor, term.as_str());
            Ok(SearchPlan { canonical, request })
        },
        None => Err(Failure::UnknownSource(source_raw.to_owned())),
    }
}

/// The line announced on standard output before the request is submitted.
pub open spec fn spec_banner(canonical: Seq<char>, term: Seq<char>) -> Seq<char> {
    "Searching on "@ + canonical + " for \""@ + term + "\""@
}

/// The announcement line for a search: the canonical source name and the
/// raw term, exactly as printed before the request goes out.
pub fn search_banner(canonical: &str, term_raw: &str) -> (r: String)
    ensures
        r@ == spec_banner(canonical@, term_raw@),
{
    "Searching on ".to_owned().concat(canonical).concat(" for \"").concat(term_raw).concat("\"")
}

/// The alias that stands in when the user names no source.
pub open spec fn spec_default_source() -> Seq<char> {
    "ddg"@
}

/// The source name a run uses: the one the user gave, or the default alias
/// `ddg` when the user gave none.
pub open spec fn spec_effective_source(arg: Option<Seq<char>>) -> Seq<char> {
    match arg {
        Some(s) => s,
        None => spec_default_source(),
    }
}

/// The source name to plan with, given the optional command-line choice.
pub fn effective_source(arg: Option<&str>) -> (r: String)
    ensures
        r@ == spec_effective_source(match arg {
            Some(s) => Some(s@),
            None => None,
        }),
{
    match arg {
        Some(s) => s.to_owned(),
        None => "ddg".to_owned(),
    }
}

/// Omitting the source behaves identically to naming `ddg`: both give the
/// same effective source name, which resolves to `duckduckgo`, so every
/// later step — registry lookup, request build, submission, rendering —
/// sees exactly the same values.
pub proof fn lemma_default_source_equivalence()
    ensures
        spec_effective_source(None) == spec_effective_source(Some("ddg"@)),
        spec_resolve_alias(spec_effective_source(None)) == "duckduckgo"@,
{
}

} // verus!
