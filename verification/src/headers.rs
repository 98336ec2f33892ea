//! Request headers, held in the header map of the `http` crate.
//!
//! The map itself is outside code: what it holds is named here, and the
//! calls the crate makes into it are given contracts over those names.

use crate::text::ascii_lowercase;
use axum::http::{HeaderMap, HeaderValue};
use vstd::prelude::*;

verus! {

/// `http::HeaderMap`, carried as it is: nothing is known of what is inside
/// a value but what the functions below say.
#[verifier::external_type_specification]
#[verifier::external_body]
#[verifier::reject_recursive_types(T)]
pub struct ExHeaderMap<T>(HeaderMap<T>);

/// `http::HeaderValue`, carried as it is.
#[verifier::external_type_specification]
#[verifier::external_body]
pub struct ExHeaderValue(HeaderValue);

/// The bytes a header value is made of.
pub uninterp spec fn value_bytes(value: HeaderValue) -> Seq<u8>;

/// What a header map holds: for each header name in it, in lower case, the
/// bytes of the first value under that name.
pub uninterp spec fn header_values(headers: HeaderMap<HeaderValue>) -> Map<Seq<char>, Seq<u8>>;

/// Whether a byte of a header value counts as text: the visible ASCII
/// characters, the space and the tab.
pub open spec fn is_visible_ascii(byte: u8) -> bool {
    (32 <= byte < 127) || byte == 9
}

/// The text that `bytes` are, where every one of them counts as text.
pub open spec fn bytes_text(bytes: Seq<u8>) -> Option<Seq<char>> {
    if forall|i: int| 0 <= i < bytes.len() ==> is_visible_ascii(#[trigger] bytes[i]) {
        Some(bytes.map_values(|byte: u8| byte as char))
    } else {
        None
    }
}

/// The text a header map gives for `name`, whatever the case of its ASCII
/// letters: the first value under that name, where there is one and it is
/// text.
pub open spec fn header_lookup(headers: HeaderMap<HeaderValue>, name: Seq<char>) -> Option<
    Seq<char>,
> {
    let key = ascii_lowercase(name);
    if header_values(headers).contains_key(key) {
        bytes_text(header_values(headers)[key])
    } else {
        None
    }
}

/// `HeaderMap::get` with a `&str` for the name: the first value under the
/// name, which is compared without regard to the case of ASCII letters.
#[verifier::external_body]
pub(crate) fn first_value<'a>(headers: &'a HeaderMap<HeaderValue>, name: &str) -> (value: Option<
    &'a HeaderValue,
>)
    ensures
        match value {
            Some(found) => header_values(*headers).contains_key(ascii_lowercase(name@))
                && header_values(*headers)[ascii_lowercase(name@)] == value_bytes(*found),
            None => !header_values(*headers).contains_key(ascii_lowercase(name@)),
        },
{
    headers.get(name)
}

/// `HeaderValue::to_str`: the value as text, where each of its bytes is a
/// visible ASCII character, a space or a tab.
#[verifier::external_body]
pub(crate) fn value_text<'a>(value: &'a HeaderValue) -> (text: Option<&'a str>)
    ensures
        match text {
            Some(found) => bytes_text(value_bytes(*value)) == Some(found@),
            None => bytes_text(value_bytes(*value)).is_none(),
        },
{
    value.to_str().ok()
}

/// `HeaderMap::clone`: a map that holds what `headers` holds.
#[verifier::external_body]
pub(crate) fn copy_headers(headers: &HeaderMap<HeaderValue>) -> (copy: HeaderMap<HeaderValue>)
    ensures
        header_values(copy) == header_values(*headers),
{
    headers.clone()
}

/// `HeaderMap::new`: a map that holds no header.
#[verifier::external_body]
pub(crate) fn no_headers() -> (made: HeaderMap<HeaderValue>)
    ensures
        forall|name: Seq<char>| !header_values(made).contains_key(name),
{
    HeaderMap::new()
}

/// The text of the first value under `name`, whatever the case of the
/// name's ASCII letters; `None` where there is no such header or its value
/// is not text.
pub fn header_text<'a>(headers: &'a HeaderMap<HeaderValue>, name: &str) -> (text: Option<&'a str>)
    ensures
        match text {
            Some(found) => header_lookup(*headers, name@) == Some(found@),
            None => header_lookup(*headers, name@).is_none(),
        },
{
    match first_value(headers, name) {
        Some(value) => value_text(value),
        None => None,
    }
}

} // verus!
