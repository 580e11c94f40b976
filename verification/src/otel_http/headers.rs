//! Reading a header map.
//!
//! The map and its values are those of the `http` crate. What they hold is
//! known to the proofs of this library by two names, one for the entries of
//! a map and one for the bytes of a value, and by what two readers promise
//! about those names.

use http::{HeaderMap, HeaderValue};
use vstd::prelude::*;

verus! {

/// `http::HeaderMap`: a multimap from header names to values. Nothing of
/// its inside is visible to proofs.
#[verifier::external_type_specification]
#[verifier::external_body]
#[verifier::reject_recursive_types(T)]
pub struct ExHeaderMap<T>(http::HeaderMap<T>);

/// `http::HeaderValue`: the bytes of one header value. Nothing of its
/// inside is visible to proofs.
#[verifier::external_type_specification]
#[verifier::external_body]
pub struct ExHeaderValue(http::HeaderValue);

/// What a header map holds: under each name, written in lower case, the
/// bytes of the values that were added under it, oldest first.
pub uninterp spec fn header_entries(headers: HeaderMap<HeaderValue>) -> Map<
    Seq<char>,
    Seq<Seq<u8>>,
>;

/// The bytes of a header value.
pub uninterp spec fn value_bytes(value: HeaderValue) -> Seq<u8>;

/// A header name made of lower-case letters and hyphens, at most 64 long:
/// such a name is looked up as it is written.
pub open spec fn is_plain_name(name: Seq<char>) -> bool {
    &&& 1 <= name.len() <= 64
    &&& forall|i: int| 0 <= i < name.len() ==> ('a' <= #[trigger] name[i] <= 'z' || name[i] == '-')
}

/// The bytes of the first value under `name`, if the map holds one.
pub open spec fn first_value(headers: HeaderMap<HeaderValue>, name: Seq<char>) -> Option<
    Seq<u8>,
> {
    if header_entries(headers).contains_key(name) && header_entries(headers)[name].len() > 0 {
        Some(header_entries(headers)[name][0])
    } else {
        None
    }
}

/// A byte that may stand in a header value read as text: printable ASCII or
/// a tab.
pub open spec fn is_visible_ascii(b: u8) -> bool {
    (32 <= b < 127) || b == 9
}

/// Whether every byte is visible ASCII.
pub open spec fn is_visible_text(bytes: Seq<u8>) -> bool {
    forall|i: int| 0 <= i < bytes.len() ==> is_visible_ascii(#[trigger] bytes[i])
}

/// ASCII bytes as characters.
pub open spec fn text_of(bytes: Seq<u8>) -> Seq<char> {
    Seq::new(bytes.len(), |i: int| bytes[i] as char)
}

/// The text that bytes are read as: themselves, where every one of them is
/// visible ASCII.
pub open spec fn visible_text(bytes: Seq<u8>) -> Option<Seq<char>> {
    if is_visible_text(bytes) {
        Some(text_of(bytes))
    } else {
        None
    }
}

/// `HeaderMap::get` with a name given as text. For a plain name the crate
/// looks the name up as it is written and returns the value that was
/// stored first under it, or nothing where the map has no such name.
#[verifier::external_body]
pub(crate) fn header_get<'a>(headers: &'a HeaderMap, name: &str) -> (value: Option<
    &'a HeaderValue,
>)
    requires
        is_plain_name(name@),
    ensures
        match value {
            Some(v) => header_entries(*headers).contains_key(name@) && header_entries(
                *headers,
            )[name@].len() > 0 && header_entries(*headers)[name@][0] == value_bytes(*v),
            None => !header_entries(*headers).contains_key(name@) || header_entries(
                *headers,
            )[name@].len() == 0,
        },
{
    headers.get(name)
}

/// `HeaderValue::to_str`: the value as text where each of its bytes is
/// printable ASCII or a tab, and an error, here nothing, otherwise.
#[verifier::external_body]
pub(crate) fn header_value_str<'a>(value: &'a HeaderValue) -> (text: Option<&'a str>)
    ensures
        match text {
            Some(t) => is_visible_text(value_bytes(*value)) && t@ == text_of(value_bytes(*value)),
            None => !is_visible_text(value_bytes(*value)),
        },
{
    value.to_str().ok()
}

/// The text of the first value under `name`.
pub open spec fn header_text(headers: HeaderMap<HeaderValue>, name: Seq<char>) -> Option<
    Seq<char>,
> {
    match first_value(headers, name) {
        Some(bytes) => visible_text(bytes),
        None => None,
    }
}

/// Reads the first value under `name` as text.
pub(crate) fn header_str<'a>(headers: &'a HeaderMap, name: &str) -> (text: Option<&'a str>)
    requires
        is_plain_name(name@),
    ensures
        match text {
            Some(t) => header_text(*headers, name@) == Some(t@),
            None => header_text(*headers, name@).is_none(),
        },
{
    match header_get(headers, name) {
        Some(v) => header_value_str(v),
        None => None,
    }
}

} // verus!
