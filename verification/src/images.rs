//! The images that a page shows, and the record of what a probe of each
//! one returned.

use crate::address::{is_absolute, join_url, joined_url, url_text};
use crate::markup::{
    element_attr, element_attribute, parse_document, parse_selector, parsed_document,
    parsed_selector, select_elements, selected_elements,
};
use crate::probe::{outcome_view, Measurement, ProbeError};
use scraper::ElementRef;
use url::Url;
use vstd::pervasive::unreached;
use vstd::prelude::*;

verus! {

/// What is finally reported of one image: its address, its descriptive
/// text, its size in kilobytes, its content kind and its status. A status
/// of zero says that the probe itself failed.
pub type ImageRecord = (String, String, u64, String, u16);

/// The selector of the image elements.
pub open spec fn image_pattern() -> Seq<char> {
    "img"@
}

/// The source that an image element names: its `src`, or its `data-src`
/// where it has no `src`.
pub open spec fn image_source(image: ElementRef) -> Option<Seq<char>> {
    match element_attribute(image, "src"@) {
        Some(source) => Some(source),
        None => element_attribute(image, "data-src"@),
    }
}

/// The descriptive text of an image element; empty where it has none.
pub open spec fn image_alt(image: ElementRef) -> Seq<char> {
    match element_attribute(image, "alt"@) {
        Some(alt) => alt,
        None => Seq::empty(),
    }
}

/// The address and the descriptive text that one image element
/// contributes; nothing where it names no source or its source does not
/// resolve against the base.
pub open spec fn image_asset(image: ElementRef, base: Seq<char>) -> Option<
    (Seq<char>, Seq<char>),
> {
    match image_source(image) {
        None => None,
        Some(source) => match joined_url(base, source) {
            None => None,
            Some(address) => Some((address, image_alt(image))),
        },
    }
}

/// What a run of image elements contributes, in the elements' order.
pub open spec fn image_assets(images: Seq<ElementRef>, base: Seq<char>) -> Seq<
    (Seq<char>, Seq<char>),
> {
    images.filter_map(|image: ElementRef| image_asset(image, base))
}

/// The images of the page `html`; meaningful where the selector of the
/// image elements is accepted.
pub open spec fn page_images(html: Seq<char>, base: Seq<char>) -> Seq<(Seq<char>, Seq<char>)> {
    let selector = parsed_selector(image_pattern())->0;
    image_assets(selected_elements(&parsed_document(html), selector), base)
}

/// An image as text: the serialization of its address, and its
/// descriptive text.
pub open spec fn asset_view(asset: (Url, String)) -> (Seq<char>, Seq<char>) {
    (url_text(asset.0), asset.1@)
}

/// A list of images as text.
pub open spec fn assets_view(assets: Seq<(Url, String)>) -> Seq<(Seq<char>, Seq<char>)> {
    assets.map_values(|asset: (Url, String)| asset_view(asset))
}

/// Every address of the list starts with a scheme and a colon.
pub open spec fn assets_absolute(assets: Seq<(Url, String)>) -> bool {
    forall|i: int| 0 <= i < assets.len() ==> is_absolute(url_text((#[trigger] assets[i]).0))
}

/// The address and the descriptive text that one image element
/// contributes, if any.
pub fn resolve_image(image: &ElementRef, base_url: &Url) -> (asset: Option<(Url, String)>)
    ensures
        match asset {
            Some(found) => image_asset(*image, url_text(*base_url)) == Some(asset_view(found))
                && is_absolute(url_text(found.0)),
            None => image_asset(*image, url_text(*base_url)) is None,
        },
{
    let source = match element_attr(image, "src") {
        Some(source) => Some(source),
        None => element_attr(image, "data-src"),
    };
    match source {
        None => None,
        Some(source) => match join_url(base_url, source.as_str()) {
            None => None,
            Some(address) => {
                let alt = match element_attr(image, "alt") {
                    Some(alt) => alt,
                    None => String::new(),
                };
                Some((address, alt))
            },
        },
    }
}

/// What a run of image elements contributes, in the elements' order.
pub fn resolve_images(images: &Vec<ElementRef>, base_url: &Url) -> (assets: Vec<(Url, String)>)
    ensures
        assets_view(assets@) == image_assets(images@, url_text(*base_url)),
        assets_absolute(assets@),
{
    let ghost base = url_text(*base_url);
    let ghost asset_of = |image: ElementRef| image_asset(image, base);
    let mut assets: Vec<(Url, String)> = Vec::new();
    let mut i: usize = 0;
    while i < images.len()
        invariant
            i <= images.len(),
            base == url_text(*base_url),
            asset_of == (|image: ElementRef| image_asset(image, base)),
            assets_view(assets@) == images@.take(i as int).filter_map(asset_of),
            assets_absolute(assets@),
        decreases images.len() - i,
    {
        proof {
            images@.lemma_filter_map_take_succ(asset_of, i as int);
        }
        let ghost before = assets@;
        match resolve_image(&images[i], base_url) {
            Some(asset) => {
                let ghost added = asset_view(asset);
                assets.push(asset);
                assert(assets_view(assets@) =~= assets_view(before).push(added));
            },
            None => {},
        }
        i += 1;
    }
    assert(images@.take(i as int) == images@);
    assets
}

/// Extracts the images of a page: for each `img` element that names a
/// source which resolves against `base_url`, the absolute address and the
/// descriptive text, in the order in which the elements were selected.
/// Nothing is removed for occurring twice.
///
/// The selector `img` is fixed, and that it is accepted is taken for
/// granted here; [`try_extract_image_urls_and_alts`] tests it.
pub fn extract_image_urls_and_alts(html: &str, base_url: &Url) -> (assets: Vec<(Url, String)>)
    requires
        parsed_selector(image_pattern()) is Some,
    ensures
        assets_view(assets@) == page_images(html@, url_text(*base_url)),
        assets_absolute(assets@),
{
    let document = parse_document(html);
    match parse_selector("img") {
        Some(selector) => {
            let images = select_elements(&document, &selector);
            resolve_images(&images, base_url)
        },
        None => unreached(),
    }
}

/// Extracts the images of a page as [`extract_image_urls_and_alts`] does,
/// or returns `None` where the selector of the image elements is rejected.
pub fn try_extract_image_urls_and_alts(html: &str, base_url: &Url) -> (assets: Option<
    Vec<(Url, String)>,
>)
    ensures
        match assets {
            Some(found) => parsed_selector(image_pattern()) is Some && assets_view(found@)
                == page_images(html@, url_text(*base_url)) && assets_absolute(found@),
            None => parsed_selector(image_pattern()) is None,
        },
{
    match parse_selector("img") {
        Some(_) => Some(extract_image_urls_and_alts(html, base_url)),
        None => None,
    }
}

/// The record of one image with the outcome of its probe: what the probe
/// measured, or zero, no content kind and the status zero where it failed.
/// The address and the descriptive text stay as they are either way.
pub open spec fn record_of(
    asset: (Seq<char>, Seq<char>),
    outcome: Result<(u64, Seq<char>, u16), ProbeError>,
) -> (Seq<char>, Seq<char>, u64, Seq<char>, u16) {
    match outcome {
        Ok(measurement) => (asset.0, asset.1, measurement.0, measurement.1, measurement.2),
        Err(_) => (asset.0, asset.1, 0, Seq::empty(), 0),
    }
}

/// The records of a list of images, each with the outcome at its own
/// position.
pub open spec fn records_of(
    assets: Seq<(Seq<char>, Seq<char>)>,
    outcomes: Seq<Result<(u64, Seq<char>, u16), ProbeError>>,
) -> Seq<(Seq<char>, Seq<char>, u64, Seq<char>, u16)>
    recommends
        outcomes.len() == assets.len(),
{
    Seq::new(assets.len(), |i: int| record_of(assets[i], outcomes[i]))
}

/// A list of probe outcomes with the text of each measurement as a
/// sequence.
pub open spec fn outcomes_view(outcomes: Seq<Result<Measurement, ProbeError>>) -> Seq<
    Result<(u64, Seq<char>, u16), ProbeError>,
> {
    outcomes.map_values(|outcome: Result<Measurement, ProbeError>| outcome_view(outcome))
}

/// The record of one image with the outcome of its probe. A failed probe
/// leaves the image in place, with nothing measured.
pub fn image_record(url: &str, alt: &str, outcome: &Result<Measurement, ProbeError>) -> (record:
    ImageRecord)
    ensures
        record.deep_view() == record_of((url@, alt@), outcome_view(*outcome)),
{
    match outcome {
        Ok(measurement) => (
            url.to_owned(),
            alt.to_owned(),
            measurement.0,
            measurement.1.clone(),
            measurement.2,
        ),
        Err(_) => (url.to_owned(), alt.to_owned(), 0, String::new(), 0),
    }
}

/// Joins the images with the outcomes of their probes, position by
/// position: one record for each image, in the images' order, whatever the
/// outcomes are.
pub fn collect_image_records(
    assets: &Vec<(Url, String)>,
    outcomes: &Vec<Result<Measurement, ProbeError>>,
) -> (records: Vec<ImageRecord>)
    requires
        outcomes.len() == assets.len(),
    ensures
        records.deep_view() == records_of(assets_view(assets@), outcomes_view(outcomes@)),
        forall|k: int| 0 <= k < records.len() ==> is_absolute((#[trigger] records@[k]).0@),
{
    let mut records: Vec<ImageRecord> = Vec::new();
    let mut i: usize = 0;
    while i < assets.len()
        invariant
            i <= assets.len(),
            outcomes.len() == assets.len(),
            records.len() == i,
            forall|k: int| 0 <= k < i ==> is_absolute((#[trigger] records@[k]).0@),
            forall|k: int|
                0 <= k < i ==> (#[trigger] records@[k]).deep_view() == record_of(
                    asset_view(assets@[k]),
                    outcome_view(outcomes@[k]),
                ),
        decreases assets.len() - i,
    {
        let asset = &assets[i];
        let record = image_record(asset.0.as_str(), asset.1.as_str(), &outcomes[i]);
        records.push(record);
        i += 1;
    }
    assert(records.deep_view() =~= records_of(assets_view(assets@), outcomes_view(outcomes@)));
    records
}

} // verus!
