//! Absolute addresses, as the `url` crate parses and resolves them.
//!
//! A `Url` is carried through as an opaque value. Contracts speak of it by
//! its serialization, [`url_text`], which is also what two addresses are
//! compared by.

use url::Url;
use vstd::prelude::*;

verus! {

/// `url::Url`, opaque here.
#[verifier::external_type_specification]
#[verifier::external_body]
pub struct ExUrl(Url);

/// The serialization of an address: what `Url::as_str` returns.
pub uninterp spec fn url_text(url: Url) -> Seq<char>;

/// The serialization of the address that `Url::parse` reads from `input`,
/// or `None` where it rejects the input.
pub uninterp spec fn parsed_url(input: Seq<char>) -> Option<Seq<char>>;

/// The serialization of the address that `Url::join` resolves `reference`
/// to against the base with the serialization `base`, or `None` where it
/// rejects the reference.
pub uninterp spec fn joined_url(base: Seq<char>, reference: Seq<char>) -> Option<Seq<char>>;

/// A character that may stand in a scheme after its first letter.
pub open spec fn is_scheme_char(c: char) -> bool {
    ||| 'a' <= c && c <= 'z'
    ||| 'A' <= c && c <= 'Z'
    ||| '0' <= c && c <= '9'
    ||| c == '+'
    ||| c == '-'
    ||| c == '.'
}

/// `text` starts with a scheme that ends before the colon at `end`.
pub open spec fn has_scheme(text: Seq<char>, end: int) -> bool {
    &&& 1 <= end < text.len()
    &&& ('a' <= text[0] && text[0] <= 'z' || 'A' <= text[0] && text[0] <= 'Z')
    &&& forall|i: int| 1 <= i < end ==> is_scheme_char(#[trigger] text[i])
    &&& text[end] == ':'
}

/// `text` is an absolute address as far as its head shows: it starts with
/// a scheme and a colon.
pub open spec fn is_absolute(text: Seq<char>) -> bool {
    exists|end: int| has_scheme(text, end)
}

/// Every address of the list starts with a scheme and a colon.
pub open spec fn all_absolute(addresses: Seq<Seq<char>>) -> bool {
    forall|i: int| 0 <= i < addresses.len() ==> is_absolute(#[trigger] addresses[i])
}

/// `Url::as_str`: the serialization of the address, which starts with a
/// scheme and a colon for every `Url`.
pub assume_specification<'a>[ Url::as_str ](url: &'a Url) -> (text: &'a str)
    ensures
        text@ == url_text(*url),
        is_absolute(text@),
;

/// `Url::parse`: whether the input is accepted, and the serialization of
/// the address read from it, are functions of the input text alone. An
/// address that comes back starts with a scheme and a colon.
#[verifier::external_body]
pub(crate) fn parse_url(input: &str) -> (url: Option<Url>)
    ensures
        match url {
            Some(address) => parsed_url(input@) == Some(url_text(address)) && is_absolute(
                url_text(address),
            ),
            None => parsed_url(input@) is None,
        },
{
    Url::parse(input).ok()
}

/// `Url::join`: whether the reference is accepted, and the serialization of
/// the address it resolves to, are functions of the base's serialization
/// and of the reference text. An address that comes back starts with a
/// scheme and a colon.
#[verifier::external_body]
pub(crate) fn join_url(base: &Url, reference: &str) -> (url: Option<Url>)
    ensures
        match url {
            Some(address) => joined_url(url_text(*base), reference@) == Some(url_text(address))
                && is_absolute(url_text(address)),
            None => joined_url(url_text(*base), reference@) is None,
        },
{
    base.join(reference).ok()
}

} // verus!
