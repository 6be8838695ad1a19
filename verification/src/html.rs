//! Reading text and attributes out of an HTML document.
//!
//! Parsing the document and matching CSS selectors are the work of the
//! `scraper` crate. What it returns is named here, not described.

use crate::utils::url::option_string_view;
use scraper::{Html, Selector};
use vstd::prelude::*;

verus! {

/// The text inside the first element of the document `html` that matches
/// `selector`; `None` where no element matches or the selector is not valid.
pub uninterp spec fn first_text(html: Seq<char>, selector: Seq<char>) -> Option<Seq<char>>;

/// For each element of the document `html` that matches `selector`, in the
/// order the document is walked, the value of its attribute `name`, or
/// `None` where it lacks the attribute; empty where the selector is not
/// valid.
pub uninterp spec fn all_attrs(html: Seq<char>, selector: Seq<char>, name: Seq<char>) -> Seq<
    Option<Seq<char>>,
>;

/// The contents of a vector of optional strings.
pub open spec fn option_strings_view(v: Seq<Option<String>>) -> Seq<Option<Seq<char>>> {
    v.map_values(|s: Option<String>| option_string_view(s))
}

/// The first of `values`, where there is one and it holds a value.
pub open spec fn first_value(values: Seq<Option<Seq<char>>>) -> Option<Seq<char>> {
    if values.len() > 0 {
        values[0]
    } else {
        None
    }
}

/// Calls `Selector::parse`, `Html::parse_document` and `Html::select`, and
/// collects `ElementRef::text` of the first match. Trusted: the result is
/// what the crate gives for this document and selector.
#[verifier::external_body]
pub(crate) fn select_first_text(html: &str, selector: &str) -> (text: Option<String>)
    ensures
        option_string_view(text) == first_text(html@, selector@),
{
    match Selector::parse(selector) {
        Ok(parsed) => Html::parse_document(html).select(&parsed).next().map(
            |element| element.text().collect(),
        ),
        Err(_) => None,
    }
}

/// Calls `Selector::parse`, `Html::parse_document` and `Html::select`, and
/// reads `Element::attr` of every match. Trusted: the result is what the
/// crate gives for this document, selector and attribute name, one entry
/// for each match.
#[verifier::external_body]
pub(crate) fn select_all_attrs(html: &str, selector: &str, name: &str) -> (values: Vec<
    Option<String>,
>)
    ensures
        option_strings_view(values@) == all_attrs(html@, selector@, name@),
{
    match Selector::parse(selector) {
        Ok(parsed) => Html::parse_document(html).select(&parsed).map(
            |element| element.value().attr(name).map(String::from),
        ).collect(),
        Err(_) => Vec::new(),
    }
}

/// The first of `values`, where there is one and it holds a value.
pub fn take_first(values: Vec<Option<String>>) -> (first: Option<String>)
    ensures
        option_string_view(first) == first_value(option_strings_view(values@)),
{
    let mut values = values;
    if values.len() > 0 {
        values.swap_remove(0)
    } else {
        None
    }
}

} // verus!
