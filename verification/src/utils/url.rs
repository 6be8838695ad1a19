//! URLs: parsing, resolving a reference against a base, and the canonical
//! form under which the crawler knows a page.
//!
//! Parsing and resolving are the work of the `url` crate. What it returns
//! is named here, not described: the contracts of this module say how the
//! crawler's answers are made of those results.

use ::url::Url;
use vstd::prelude::*;

verus! {

/// What the crawler reads of a parsed URL.
#[derive(Clone, Debug)]
pub struct ParsedUrl {
    /// The URL as the parser writes it out.
    pub href: String,
    /// The scheme, in lower case, without the colon.
    pub scheme: String,
    /// The host, where the URL has one.
    pub host: Option<String>,
    /// The path.
    pub path: String,
}

/// What a `ParsedUrl` holds, as sequences of characters.
pub struct UrlParts {
    pub href: Seq<char>,
    pub scheme: Seq<char>,
    pub host: Option<Seq<char>>,
    pub path: Seq<char>,
}

/// The contents of an optional string.
pub open spec fn option_string_view(s: Option<String>) -> Option<Seq<char>> {
    match s {
        Some(s) => Some(s@),
        None => None,
    }
}

impl View for ParsedUrl {
    type V = UrlParts;

    open spec fn view(&self) -> UrlParts {
        UrlParts {
            href: self.href@,
            scheme: self.scheme@,
            host: option_string_view(self.host),
            path: self.path@,
        }
    }
}

/// The parts of `input` parsed as an absolute URL; `None` where it is not one.
pub uninterp spec fn parsed_url(input: Seq<char>) -> Option<UrlParts>;

/// The parts of `reference` resolved against the URL `base`; `None` where
/// `base` is no absolute URL or the reference cannot be resolved.
pub uninterp spec fn joined_url(base: Seq<char>, reference: Seq<char>) -> Option<UrlParts>;

/// The written form of the `http` or `https` URL `input` once its fragment
/// is removed.
pub uninterp spec fn url_without_fragment(input: Seq<char>) -> Option<Seq<char>>;

/// Whether `scheme` is one the crawler follows.
pub open spec fn is_web_scheme(scheme: Seq<char>) -> bool {
    scheme == "http"@ || scheme == "https"@
}

/// The canonical form of `input`: its written form without the fragment,
/// where it is an absolute URL of a scheme the crawler follows.
pub open spec fn normalized(input: Seq<char>) -> Option<Seq<char>> {
    match parsed_url(input) {
        Some(parts) => if is_web_scheme(parts.scheme) {
            url_without_fragment(input)
        } else {
            None
        },
        None => None,
    }
}

/// The canonical form of `reference` resolved against `base`.
pub open spec fn normalized_against(reference: Seq<char>, base: Seq<char>) -> Option<Seq<char>> {
    match joined_url(base, reference) {
        Some(absolute) => normalized(absolute.href),
        None => None,
    }
}

/// Calls `Url::parse` and reads the result's `as_str`, `scheme`, `host_str`
/// and `path`. Trusted: the parts returned are those the crate gives for
/// this input, and a failure to parse is `None`.
#[verifier::external_body]
pub(crate) fn parse_url(input: &str) -> (parsed: Option<ParsedUrl>)
    ensures
        parsed is Some <==> parsed_url(input@) is Some,
        parsed matches Some(p) ==> parsed_url(input@) == Some(p@),
{
    match Url::parse(input) {
        Ok(url) => Some(
            ParsedUrl {
                href: url.as_str().to_string(),
                scheme: url.scheme().to_string(),
                host: url.host_str().map(str::to_string),
                path: url.path().to_string(),
            },
        ),
        Err(_) => None,
    }
}

/// Calls `Url::parse` on `base` and `Url::join` on the result, and reads
/// the resolved URL's `as_str`, `scheme`, `host_str` and `path`. Trusted:
/// the parts returned are those the crate gives for these two inputs, and
/// a failure of either call is `None`.
#[verifier::external_body]
pub(crate) fn join_url(base: &str, reference: &str) -> (joined: Option<ParsedUrl>)
    ensures
        joined is Some <==> joined_url(base@, reference@) is Some,
        joined matches Some(p) ==> joined_url(base@, reference@) == Some(p@),
{
    match Url::parse(base).and_then(|url| url.join(reference)) {
        Ok(url) => Some(
            ParsedUrl {
                href: url.as_str().to_string(),
                scheme: url.scheme().to_string(),
                host: url.host_str().map(str::to_string),
                path: url.path().to_string(),
            },
        ),
        Err(_) => None,
    }
}

/// Calls `Url::parse`, then `Url::set_fragment` with `None`, and returns
/// the written form. It is for `http` and `https` URLs only. Trusted: the
/// result is `Some`, and a prefix of the parsed URL's written form, since
/// removing a fragment only cuts the written form short. Trusted of the
/// string returned, on the strength of the crate's own invariant that a
/// URL's written form parses back to the same URL: it parses, to a URL of
/// the input's scheme, and removing the fragment from it leaves it as it
/// is.
#[verifier::external_body]
pub(crate) fn strip_fragment(input: &str) -> (stripped: Option<String>)
    requires
        parsed_url(input@) matches Some(parts) && is_web_scheme(parts.scheme),
    ensures
        stripped is Some,
        stripped matches Some(s) ==> {
            &&& url_without_fragment(input@) == Some(s@)
            &&& s@.is_prefix_of(parsed_url(input@)->0.href)
            &&& parsed_url(s@) matches Some(again)
            &&& again.scheme == parsed_url(input@)->0.scheme
            &&& url_without_fragment(s@) == Some(s@)
        },
{
    match Url::parse(input) {
        Ok(mut url) => {
            url.set_fragment(None);
            Some(String::from(url))
        },
        Err(_) => None,
    }
}

/// Tests whether `scheme` is `http` or `https`.
pub fn scheme_is_web(scheme: &str) -> (web: bool)
    ensures
        web == is_web_scheme(scheme@),
{
    let chars: Vec<char> = crate::utils::text::to_chars(scheme);
    let http: Vec<char> = crate::utils::text::to_chars("http");
    let https: Vec<char> = crate::utils::text::to_chars("https");
    crate::utils::text::chars_equal(&chars, &http) || crate::utils::text::chars_equal(
        &chars,
        &https,
    )
}

/// Brings a URL into its canonical form: absolute, without fragment.
/// Rejects what is no absolute URL and what has another scheme than `http`
/// or `https`. The canonical form begins the URL's written form, and a
/// canonical URL is its own canonical form.
pub fn normalize_url(url: &str) -> (canonical: Option<String>)
    ensures
        canonical is Some <==> normalized(url@) is Some,
        canonical matches Some(c) ==> normalized(url@) == Some(c@),
        canonical matches Some(c) ==> c@.is_prefix_of(parsed_url(url@)->0.href),
        canonical matches Some(c) ==> normalized(c@) == Some(c@),
{
    match parse_url(url) {
        Some(parts) => {
            if scheme_is_web(parts.scheme.as_str()) {
                strip_fragment(url)
            } else {
                None
            }
        },
        None => None,
    }
}

/// Resolves `url` against `base`, then brings the result into its
/// canonical form.
pub fn normalize_url_against(url: &str, base: &str) -> (canonical: Option<String>)
    ensures
        canonical is Some <==> normalized_against(url@, base@) is Some,
        canonical matches Some(c) ==> normalized_against(url@, base@) == Some(c@),
        canonical matches Some(c) ==> normalized(c@) == Some(c@),
{
    match join_url(base, url) {
        Some(absolute) => normalize_url(absolute.href.as_str()),
        None => None,
    }
}

} // verus!
