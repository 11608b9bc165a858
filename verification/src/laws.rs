//! What holds of the extraction and of the probe's classification, for
//! every page, every base address and every outcome.

use crate::address::joined_url;
use crate::images::{image_asset, image_assets, image_source, record_of, records_of};
use crate::markup::{element_attribute, parsed_document, parsed_selector, selected_elements};
use crate::pdf_links::{page_pdf_links, pdf_anchor_pattern};
use crate::probe::{
    content_kind, is_image_kind, is_rejected, kilobytes, probe_outcome, Exchange, HeadResponse,
    ProbeError, BYTES_PER_KB, STATUS_OK,
};
use scraper::ElementRef;
use vstd::prelude::*;

verus! {

/// An image element that contributes an image.
pub open spec fn is_usable(image: ElementRef, base: Seq<char>) -> bool {
    image_asset(image, base) is Some
}

/// What one run of elements contributes, followed by what a second run
/// contributes, is what the two runs contribute when one follows the other.
pub proof fn lemma_filter_map_concat<A, B>(
    first: Seq<A>,
    second: Seq<A>,
    f: spec_fn(A) -> Option<B>,
)
    ensures
        (first + second).filter_map(f) == first.filter_map(f) + second.filter_map(f),
    decreases second.len(),
{
    if second.len() == 0 {
        assert(first + second == first);
        assert(first.filter_map(f) + second.filter_map(f) == first.filter_map(f));
    } else {
        let whole = first + second;
        assert(whole.drop_last() == first + second.drop_last());
        assert(whole.last() == second.last());
        lemma_filter_map_concat(first, second.drop_last(), f);
        match f(second.last()) {
            Some(b) => {
                assert(whole.filter_map(f) == (first + second.drop_last()).filter_map(f) + seq![b]);
                assert(second.filter_map(f) == second.drop_last().filter_map(f) + seq![b]);
                assert(first.filter_map(f) + (second.drop_last().filter_map(f) + seq![b]) == (
                    first.filter_map(f) + second.drop_last().filter_map(f)) + seq![b]);
            },
            None => {},
        }
    }
}

/// The images of a page are its usable image elements, each turned into
/// its image, in the same relative order: nothing is added, nothing usable
/// is left out, and no two change places.
pub proof fn law_images_are_the_usable_elements(images: Seq<ElementRef>, base: Seq<char>)
    ensures
        image_assets(images, base) == images.filter(|image: ElementRef| is_usable(image, base))
            .map_values(|image: ElementRef| image_asset(image, base)->0),
        image_assets(images, base).len() == images.filter(
            |image: ElementRef| is_usable(image, base),
        ).len(),
    decreases images.len(),
{
    let asset_of = |image: ElementRef| image_asset(image, base);
    let usable = |image: ElementRef| is_usable(image, base);
    let unwrapped = |image: ElementRef| image_asset(image, base)->0;
    reveal(Seq::filter);
    if images.len() == 0 {
        assert(images.filter_map(asset_of) == images.filter(usable).map_values(unwrapped));
    } else {
        law_images_are_the_usable_elements(images.drop_last(), base);
        let rest = images.drop_last();
        assert(rest.filter_map(asset_of) == rest.filter(usable).map_values(unwrapped));
        match asset_of(images.last()) {
            Some(asset) => {
                assert(images.filter(usable) == rest.filter(usable).push(images.last()));
                assert(images.filter_map(asset_of) == rest.filter_map(asset_of) + seq![asset]);
                assert(images.filter(usable).map_values(unwrapped) == rest.filter(usable)
                    .map_values(unwrapped) + seq![asset]);
            },
            None => {
                assert(images.filter(usable) == rest.filter(usable));
            },
        }
    }
}

/// One record comes back for each usable image element of the page, in the
/// elements' relative order, whatever the probes returned: the record at a
/// position carries the address and the descriptive text of the image at
/// that position.
pub proof fn law_one_record_per_usable_image(
    images: Seq<ElementRef>,
    base: Seq<char>,
    outcomes: Seq<Result<(u64, Seq<char>, u16), ProbeError>>,
)
    requires
        outcomes.len() == image_assets(images, base).len(),
    ensures
        records_of(image_assets(images, base), outcomes).len() == images.filter(
            |image: ElementRef| is_usable(image, base),
        ).len(),
        forall|k: int|
            #![trigger records_of(image_assets(images, base), outcomes)[k]]
            0 <= k < image_assets(images, base).len() ==> {
                let record = records_of(image_assets(images, base), outcomes)[k];
                let image = images.filter(|image: ElementRef| is_usable(image, base))[k];
                image_asset(image, base) == Some((record.0, record.1))
            },
{
    law_images_are_the_usable_elements(images, base);
}

/// An image element with neither a `src` nor a `data-src` contributes
/// nothing: the page yields what it would yield without the element.
pub proof fn law_image_without_source_is_skipped(
    before: Seq<ElementRef>,
    image: ElementRef,
    after: Seq<ElementRef>,
    base: Seq<char>,
)
    requires
        element_attribute(image, "src"@) is None,
        element_attribute(image, "data-src"@) is None,
    ensures
        image_asset(image, base) is None,
        image_assets(before.push(image) + after, base) == image_assets(before + after, base),
{
    lemma_skipped_element(before, image, after, base);
}

/// An image element whose source does not resolve against the base is left
/// out, and the elements around it contribute what they contribute without
/// it.
pub proof fn law_unresolvable_image_is_skipped(
    before: Seq<ElementRef>,
    image: ElementRef,
    after: Seq<ElementRef>,
    base: Seq<char>,
)
    requires
        image_source(image) matches Some(source) && joined_url(base, source) is None,
    ensures
        image_asset(image, base) is None,
        image_assets(before.push(image) + after, base) == image_assets(before, base)
            + image_assets(after, base),
        image_assets(before.push(image) + after, base) == image_assets(before + after, base),
{
    lemma_skipped_element(before, image, after, base);
}

/// An element that contributes nothing can be struck from the run.
proof fn lemma_skipped_element(
    before: Seq<ElementRef>,
    image: ElementRef,
    after: Seq<ElementRef>,
    base: Seq<char>,
)
    requires
        image_asset(image, base) is None,
    ensures
        image_assets(before.push(image) + after, base) == image_assets(before, base)
            + image_assets(after, base),
        image_assets(before.push(image) + after, base) == image_assets(before + after, base),
{
    let asset_of = |image: ElementRef| image_asset(image, base);
    lemma_filter_map_concat(before.push(image), after, asset_of);
    lemma_filter_map_concat(before, after, asset_of);
    assert(before.push(image).drop_last() == before);
    assert(before.push(image).filter_map(asset_of) == before.filter_map(asset_of));
}

/// A probe that timed out fails, and the failure is absorbed: the image
/// keeps its address and its descriptive text, with the size zero, no
/// content kind and the status zero.
pub proof fn law_timeout_is_absorbed(url: Seq<char>, alt: Seq<char>)
    ensures
        probe_outcome(Exchange::TimedOut) == Err::<(u64, Seq<char>, u16), ProbeError>(
            ProbeError::Timeout,
        ),
        record_of((url, alt), probe_outcome(Exchange::TimedOut)) == (
            url,
            alt,
            0u64,
            Seq::<char>::empty(),
            0u16,
        ),
{
}

/// Whatever the failure of a probe is, the record of its image holds the
/// size zero, no content kind and the status zero, and the image's own
/// address and descriptive text.
pub proof fn law_every_failure_is_absorbed(error: ProbeError, url: Seq<char>, alt: Seq<char>)
    ensures
        record_of((url, alt), Err(error)) == (url, alt, 0u64, Seq::<char>::empty(), 0u16),
{
}

/// An answer with a status other than success is no failure: it is
/// reported with its own status and content kind, and with the size zero
/// whatever length it declares.
pub proof fn law_other_status_is_reported(response: HeadResponse, url: Seq<char>, alt: Seq<char>)
    requires
        response.status != STATUS_OK,
    ensures
        probe_outcome(Exchange::Answered(response)) == Ok::<(u64, Seq<char>, u16), ProbeError>(
            (0u64, content_kind(response), response.status),
        ),
        record_of((url, alt), probe_outcome(Exchange::Answered(response))) == (
            url,
            alt,
            0u64,
            content_kind(response),
            response.status,
        ),
{
}

/// A success whose content is no image is a failure, and is absorbed: the
/// record holds neither the status nor the content kind that came back.
pub proof fn law_non_image_success_is_absorbed(
    response: HeadResponse,
    url: Seq<char>,
    alt: Seq<char>,
)
    requires
        response.status == STATUS_OK,
        !is_image_kind(content_kind(response)),
    ensures
        is_rejected(response),
        probe_outcome(Exchange::Answered(response)) == Err::<(u64, Seq<char>, u16), ProbeError>(
            ProbeError::NonImageContent,
        ),
        record_of((url, alt), probe_outcome(Exchange::Answered(response))) == (
            url,
            alt,
            0u64,
            Seq::<char>::empty(),
            0u16,
        ),
{
}

/// The size is in whole kilobytes of 1024 bytes, rounded down: the bytes
/// that it leaves out are fewer than one kilobyte.
pub proof fn law_kilobytes_round_down(bytes: u64)
    ensures
        kilobytes(bytes) * BYTES_PER_KB <= bytes < (kilobytes(bytes) + 1) * BYTES_PER_KB,
{
}

/// The links of a page are absent where there are none, never present
/// and empty: a page in which the selector yields no anchor has no links,
/// and links that are present hold at least one address.
pub proof fn law_no_pdf_link_is_absent(body: Seq<char>, base: Seq<char>)
    ensures
        page_pdf_links(body, base) matches Some(links) ==> links.len() > 0,
        parsed_selector(pdf_anchor_pattern()) matches Some(selector) && selected_elements(
            &parsed_document(body),
            selector,
        ).len() == 0 ==> page_pdf_links(body, base) is None,
{
}

} // verus!
