//! What a metadata probe of one image came back with, and what is reported
//! of it: a size in kilobytes, a content kind and a status, or a failure.

use crate::text::{contains, contains_text, decimal_u64, parse_decimal};
use vstd::prelude::*;
use vstd::string::StringExecFns;

verus! {

/// The answer to a metadata-only request: the numeric status and the two
/// headers that the probe reads, each absent where the answer had none that
/// is readable as text.
#[derive(Debug, Clone, PartialEq, Eq)]
pub struct HeadResponse {
    pub status: u16,
    pub content_type: Option<String>,
    pub content_length: Option<String>,
}

/// How the exchange with the remote side ended.
#[derive(Debug, Clone, PartialEq, Eq)]
pub enum Exchange {
    /// No answer within the time allowed.
    TimedOut,
    /// The request could not be carried out; the text says why.
    Failed(String),
    /// The remote side answered.
    Answered(HeadResponse),
}

/// Why a probe reports nothing of an image.
#[derive(Debug, Clone, PartialEq, Eq)]
pub enum ProbeError {
    /// The exchange timed out.
    Timeout,
    /// The exchange failed below the level of a status; the text says why.
    Transport(String),
    /// The status was a success, but the content is not an image.
    NonImageContent,
}

/// What a probe reports of a resource that answered: its size in
/// kilobytes, its content kind and its status.
pub type Measurement = (u64, String, u16);

/// The seconds that one probe may take, connection included, before it
/// counts as timed out.
pub const PROBE_TIMEOUT_SECS: u64 = 5;

/// The status that counts as success.
pub const STATUS_OK: u16 = 200;

/// Bytes in one kilobyte.
pub const BYTES_PER_KB: u64 = 1024;

/// The content kind that a response declares; empty where it declares none.
pub open spec fn content_kind(response: HeadResponse) -> Seq<char> {
    match response.content_type {
        Some(kind) => kind@,
        None => Seq::empty(),
    }
}

/// The length in bytes that a response declares; zero where it declares
/// none, or one that is no unsigned decimal number.
pub open spec fn declared_bytes(response: HeadResponse) -> u64 {
    match response.content_length {
        Some(length) => match decimal_u64(length@) {
            Some(bytes) => bytes,
            None => 0,
        },
        None => 0,
    }
}

/// A content kind that names an image.
pub open spec fn is_image_kind(kind: Seq<char>) -> bool {
    contains_text(kind, "image"@)
}

/// A response whose status is a success but whose content is no image.
pub open spec fn is_rejected(response: HeadResponse) -> bool {
    response.status == STATUS_OK && !is_image_kind(content_kind(response))
}

/// Whole kilobytes in `bytes`; the remainder is dropped.
pub open spec fn kilobytes(bytes: u64) -> u64 {
    bytes / BYTES_PER_KB
}

/// The size reported of a response: the declared length in whole kilobytes
/// on success, zero on any other status.
pub open spec fn reported_kb(response: HeadResponse) -> u64 {
    if response.status == STATUS_OK {
        kilobytes(declared_bytes(response))
    } else {
        0
    }
}

/// What is reported of a response that is not rejected.
pub open spec fn measurement_of(response: HeadResponse) -> (u64, Seq<char>, u16) {
    (reported_kb(response), content_kind(response), response.status)
}

/// The outcome of a probe, by how its exchange ended.
pub open spec fn probe_outcome(exchange: Exchange) -> Result<(u64, Seq<char>, u16), ProbeError> {
    match exchange {
        Exchange::TimedOut => Err(ProbeError::Timeout),
        Exchange::Failed(reason) => Err(ProbeError::Transport(reason)),
        Exchange::Answered(response) => if is_rejected(response) {
            Err(ProbeError::NonImageContent)
        } else {
            Ok(measurement_of(response))
        },
    }
}

/// A probe's outcome with the text of its measurement as a sequence.
pub open spec fn outcome_view(outcome: Result<Measurement, ProbeError>) -> Result<
    (u64, Seq<char>, u16),
    ProbeError,
> {
    match outcome {
        Ok(measurement) => Ok((measurement.0, measurement.1@, measurement.2)),
        Err(error) => Err(error),
    }
}

impl ProbeError {
    /// The note that goes with this failure for the address `url`.
    pub open spec fn note(self, url: Seq<char>) -> Seq<char> {
        match self {
            ProbeError::Timeout => "Timeout while fetching image: "@ + url,
            ProbeError::Transport(reason) => "Failed to send request for "@ + url + ": "@
                + reason@,
            ProbeError::NonImageContent => "Non-image content type: "@ + url,
        }
    }

    /// The note that goes with this failure for the address `url`.
    pub fn message(&self, url: &str) -> (text: String)
        ensures
            text@ == self.note(url@),
    {
        match self {
            ProbeError::Timeout => String::from_str("Timeout while fetching image: ").concat(url),
            ProbeError::Transport(reason) => String::from_str("Failed to send request for ")
                .concat(url).concat(": ").concat(reason.as_str()),
            ProbeError::NonImageContent => String::from_str("Non-image content type: ").concat(
                url,
            ),
        }
    }
}

/// Whole kilobytes in `bytes`; the remainder is dropped.
pub fn size_in_kb(bytes: u64) -> (kb: u64)
    ensures
        kb == kilobytes(bytes),
{
    bytes / BYTES_PER_KB
}

/// The length in bytes that the response declares, zero where it declares
/// none that can be read.
pub fn content_length_of(response: &HeadResponse) -> (bytes: u64)
    ensures
        bytes == declared_bytes(*response),
{
    match &response.content_length {
        Some(length) => match parse_decimal(length.as_str()) {
            Some(bytes) => bytes,
            None => 0,
        },
        None => 0,
    }
}

/// Classifies an answer. A success status with content that is no image is
/// a failure; every other answer is reported with its own status and
/// content kind, and with a size only on success.
pub fn classify_response(response: &HeadResponse) -> (outcome: Result<Measurement, ProbeError>)
    ensures
        outcome_view(outcome) == probe_outcome(Exchange::Answered(*response)),
{
    let kind: String = match &response.content_type {
        Some(kind) => kind.clone(),
        None => String::new(),
    };
    let mut bytes: u64 = 0;
    if response.status == STATUS_OK {
        if !contains(kind.as_str(), "image") {
            return Err(ProbeError::NonImageContent);
        }
        bytes = content_length_of(response);
    }
    Ok((size_in_kb(bytes), kind, response.status))
}

/// The outcome of a probe whose exchange ended as `exchange` says: a
/// timeout and a failed request are failures, an answer is classified.
pub fn measure_image(exchange: Exchange) -> (outcome: Result<Measurement, ProbeError>)
    ensures
        outcome_view(outcome) == probe_outcome(exchange),
{
    match exchange {
        Exchange::TimedOut => Err(ProbeError::Timeout),
        Exchange::Failed(reason) => Err(ProbeError::Transport(reason)),
        Exchange::Answered(response) => classify_response(&response),
    }
}

} // verus!
