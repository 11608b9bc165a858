//! The PDF documents that a page links to.

use crate::address::{
    all_absolute, is_absolute, join_url, joined_url, parse_url, parsed_url, url_text,
};
use crate::markup::{
    element_attr, element_attribute, parse_document, parse_selector, parsed_document,
    parsed_selector, select_elements, selected_elements,
};
use scraper::ElementRef;
use url::Url;
use vstd::prelude::*;

verus! {

/// The addresses of the PDF documents that a page links to, in the order
/// in which the page was found to name them.
#[derive(Debug, Clone)]
pub struct PdfLinks {
    pdf_links: Vec<String>,
}

impl View for PdfLinks {
    type V = Seq<Seq<char>>;

    closed spec fn view(&self) -> Seq<Seq<char>> {
        texts(self.pdf_links@)
    }
}

impl PdfLinks {
    /// A set of links with the given addresses, in the given order.
    pub fn new(pdf_links: Vec<String>) -> (links: PdfLinks)
        ensures
            links@ == texts(pdf_links@),
    {
        PdfLinks { pdf_links }
    }

    /// The addresses, in order.
    pub fn links(&self) -> (pdf_links: &Vec<String>)
        ensures
            texts(pdf_links@) == self@,
    {
        &self.pdf_links
    }

    /// The addresses, in order, without the set around them.
    pub fn into_links(self) -> (pdf_links: Vec<String>)
        ensures
            texts(pdf_links@) == self@,
    {
        self.pdf_links
    }
}

/// The text of each string of a sequence.
pub open spec fn texts(strings: Seq<String>) -> Seq<Seq<char>> {
    strings.map_values(|s: String| s@)
}

/// The selector of the anchors whose target ends in `.pdf`.
pub open spec fn pdf_anchor_pattern() -> Seq<char> {
    "a[href$='.pdf']"@
}

/// The address that one anchor contributes: its target read as an absolute
/// address where it is one, else resolved against the base; nothing where
/// the anchor has no target or neither reading succeeds.
pub open spec fn pdf_link(anchor: ElementRef, base: Seq<char>) -> Option<Seq<char>> {
    match element_attribute(anchor, "href"@) {
        None => None,
        Some(target) => match parsed_url(target) {
            Some(absolute) => Some(absolute),
            None => joined_url(base, target),
        },
    }
}

/// The addresses that a run of anchors contributes, in the anchors' order.
pub open spec fn pdf_links_of(anchors: Seq<ElementRef>, base: Seq<char>) -> Seq<Seq<char>> {
    anchors.filter_map(|anchor: ElementRef| pdf_link(anchor, base))
}

/// The addresses of the PDF documents that the page `body` links to.
/// `None` where there is none, be it that no anchor contributes one or
/// that the selector of such anchors is rejected; never `Some` of an empty
/// list.
pub open spec fn page_pdf_links(body: Seq<char>, base: Seq<char>) -> Option<Seq<Seq<char>>> {
    match parsed_selector(pdf_anchor_pattern()) {
        None => None,
        Some(selector) => {
            let links = pdf_links_of(selected_elements(&parsed_document(body), selector), base);
            if links.len() == 0 {
                None
            } else {
                Some(links)
            }
        },
    }
}

/// The address that one anchor contributes, if any.
pub fn resolve_pdf_link(anchor: &ElementRef, base_url: &Url) -> (link: Option<String>)
    ensures
        match link {
            Some(text) => pdf_link(*anchor, url_text(*base_url)) == Some(text@) && is_absolute(
                text@,
            ),
            None => pdf_link(*anchor, url_text(*base_url)) is None,
        },
{
    match element_attr(anchor, "href") {
        None => None,
        Some(target) => match parse_url(target.as_str()) {
            Some(absolute) => Some(absolute.as_str().to_owned()),
            None => match join_url(base_url, target.as_str()) {
                Some(full) => Some(full.as_str().to_owned()),
                None => None,
            },
        },
    }
}

/// The addresses that a run of anchors contributes, in the anchors' order.
pub fn resolve_pdf_links(anchors: &Vec<ElementRef>, base_url: &Url) -> (links: Vec<String>)
    ensures
        texts(links@) == pdf_links_of(anchors@, url_text(*base_url)),
        all_absolute(texts(links@)),
{
    let ghost base = url_text(*base_url);
    let ghost link_of = |anchor: ElementRef| pdf_link(anchor, base);
    let mut links: Vec<String> = Vec::new();
    let mut i: usize = 0;
    while i < anchors.len()
        invariant
            i <= anchors.len(),
            base == url_text(*base_url),
            link_of == (|anchor: ElementRef| pdf_link(anchor, base)),
            texts(links@) == anchors@.take(i as int).filter_map(link_of),
            all_absolute(texts(links@)),
        decreases anchors.len() - i,
    {
        proof {
            anchors@.lemma_filter_map_take_succ(link_of, i as int);
        }
        let ghost before = links@;
        match resolve_pdf_link(&anchors[i], base_url) {
            Some(link) => {
                links.push(link);
                assert(texts(links@) =~= texts(before).push(link@));
            },
            None => {},
        }
        i += 1;
    }
    assert(anchors@.take(i as int) == anchors@);
    links
}

/// Finds the links to PDF documents in a page.
///
/// The anchors are those that the selector `a[href$='.pdf']` yields in the
/// parsed page, in its order. A target that is an absolute address by
/// itself stays what it is, whatever its host; any other is resolved
/// against `base_url`; an anchor of which neither succeeds is left out.
/// `None` means that there is no such link: the result is never `Some` of
/// an empty list.
pub fn extract_pdf_links(body: &str, base_url: &Url) -> (found: Option<PdfLinks>)
    ensures
        match found {
            Some(links) => page_pdf_links(body@, url_text(*base_url)) == Some(links@)
                && links@.len() > 0 && all_absolute(links@),
            None => page_pdf_links(body@, url_text(*base_url)) is None,
        },
{
    let document = parse_document(body);
    let selector = match parse_selector("a[href$='.pdf']") {
        Some(selector) => selector,
        None => {
            return None;
        },
    };
    let anchors = select_elements(&document, &selector);
    let pdf_links = resolve_pdf_links(&anchors, base_url);
    if pdf_links.len() == 0 {
        None
    } else {
        Some(PdfLinks { pdf_links })
    }
}

} // verus!
