//! Parsed markup and element selection, as the `scraper` crate provides them.

use scraper::{ElementRef, Html, Selector};
use vstd::prelude::*;

verus! {

/// `scraper::Html`: a parsed document, opaque here.
#[verifier::external_type_specification]
#[verifier::external_body]
pub struct ExHtml(Html);

/// `scraper::Selector`: a parsed selector group, opaque here.
#[verifier::external_type_specification]
#[verifier::external_body]
pub struct ExSelector(Selector);

/// `scraper::ElementRef`: a reference to one element of a document.
#[verifier::external_type_specification]
#[verifier::external_body]
pub struct ExElementRef<'a>(ElementRef<'a>);

/// The document that `Html::parse_document` builds from `text`.
pub uninterp spec fn parsed_document(text: Seq<char>) -> Html;

/// The selector that `Selector::parse` reads from `pattern`, or `None`
/// where it rejects the pattern.
pub uninterp spec fn parsed_selector(pattern: Seq<char>) -> Option<Selector>;

/// The elements that `Html::select` yields, in the order in which it
/// yields them.
pub uninterp spec fn selected_elements(document: &Html, selector: Selector) -> Seq<ElementRef>;

/// The value that `ElementRef::attr` returns for the attribute `name`.
pub uninterp spec fn element_attribute(element: ElementRef, name: Seq<char>) -> Option<Seq<char>>;

/// `Html::parse_document`: the document is a function of the text alone.
#[verifier::external_body]
pub(crate) fn parse_document(text: &str) -> (document: Html)
    ensures
        document == parsed_document(text@),
{
    Html::parse_document(text)
}

/// `Selector::parse`: the selector, or its absence, is a function of the
/// pattern alone.
#[verifier::external_body]
pub(crate) fn parse_selector(pattern: &str) -> (selector: Option<Selector>)
    ensures
        selector == parsed_selector(pattern@),
{
    Selector::parse(pattern).ok()
}

/// `Html::select`, run to its end: every element that it yields, in its
/// order.
#[verifier::external_body]
pub(crate) fn select_elements<'a>(document: &'a Html, selector: &Selector) -> (elements: Vec<
    ElementRef<'a>,
>)
    ensures
        elements@ == selected_elements(document, *selector),
{
    document.select(selector).collect()
}

/// `ElementRef::attr`: the value of the attribute, if the element has it.
#[verifier::external_body]
pub(crate) fn element_attr(element: &ElementRef, name: &str) -> (value: Option<String>)
    ensures
        match value {
            Some(v) => element_attribute(*element, name@) == Some(v@),
            None => element_attribute(*element, name@) is None,
        },
{
    element.attr(name).map(str::to_string)
}

} // verus!
