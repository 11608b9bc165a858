//! Extraction of the images and of the PDF links that a page refers to, and
//! the classification of what a metadata probe of an image returned.
//!
//! The page is parsed and queried by `scraper`, addresses are parsed and
//! resolved by `url`. What these return is named in [`markup`] and
//! [`address`]; everything that is decided on top of it is verified.
//! Requests are not made here: [`probe`] takes the outcome of an exchange
//! and says what is reported of it.

pub mod address;
pub mod images;
pub mod laws;
pub mod markup;
pub mod pdf_links;
pub mod probe;
pub mod text;

pub use images::{
    collect_image_records, extract_image_urls_and_alts, image_record,
    try_extract_image_urls_and_alts, ImageRecord,
};
pub use pdf_links::{extract_pdf_links, PdfLinks};
pub use probe::{
    classify_response, measure_image, Exchange, HeadResponse, Measurement, ProbeError,
    PROBE_TIMEOUT_SECS,
};
