//! Request headers: the header map of the HTTP client, and the rules by
//! which it takes a name and a value.
//!
//! The map, the names and the values are the client's own types. What they
//! hold is spoken of through `header_entries`, `header_name_text` and
//! `header_value_bytes`; the contracts below on the client's functions are
//! taken on trust from its source.

use vstd::prelude::*;
use vstd::utf8::encode_utf8;
use reqwest::header::{
    HeaderMap,
    HeaderName,
    HeaderValue,
    InvalidHeaderName,
    InvalidHeaderValue,
    MaxSizeReached,
};

verus! {

/// The client's header map, `reqwest::header::HeaderMap`.
#[verifier::external_type_specification]
#[verifier::external_body]
#[verifier::reject_recursive_types(T)]
pub struct ExHeaderMap<T>(HeaderMap<T>);

/// The client's header name, `reqwest::header::HeaderName`.
#[verifier::external_type_specification]
#[verifier::external_body]
pub struct ExHeaderName(HeaderName);

/// The client's header value, `reqwest::header::HeaderValue`.
#[verifier::external_type_specification]
#[verifier::external_body]
pub struct ExHeaderValue(HeaderValue);

/// The client's error for a refused name, `reqwest::header::InvalidHeaderName`.
#[verifier::external_type_specification]
#[verifier::external_body]
pub struct ExInvalidHeaderName(InvalidHeaderName);

/// The client's error for a refused value, `reqwest::header::InvalidHeaderValue`.
#[verifier::external_type_specification]
#[verifier::external_body]
pub struct ExInvalidHeaderValue(InvalidHeaderValue);

/// The client's error for a map that cannot grow, `reqwest::header::MaxSizeReached`.
#[verifier::external_type_specification]
#[verifier::external_body]
pub struct ExMaxSizeReached(MaxSizeReached);

/// What a header map holds: for each name in it, in lower case, the values
/// under that name in the order in which the map lists them.
pub uninterp spec fn header_entries(headers: HeaderMap) -> Map<Seq<char>, Seq<Seq<u8>>>;

/// How many names a header map holds, as its `keys_len` gives it.
pub uninterp spec fn header_names_held(headers: HeaderMap) -> nat;

/// The text of a header name, as its `as_str` gives it.
pub uninterp spec fn header_name_text(name: HeaderName) -> Seq<char>;

/// The bytes of a header value, as its `as_bytes` gives them.
pub uninterp spec fn header_value_bytes(value: HeaderValue) -> Seq<u8>;

/// The entries of a map without headers.
pub open spec fn no_headers() -> Map<Seq<char>, Seq<Seq<u8>>> {
    Map::empty()
}

/// The bytes that a header name may be made of: letters, digits and
/// ``! # $ % & ' * + - . ^ _ ` | ~``.
pub open spec fn is_header_name_byte(b: u8) -> bool {
    ||| 0x30 <= b <= 0x39
    ||| 0x41 <= b <= 0x5a
    ||| 0x61 <= b <= 0x7a
    ||| b == 0x21
    ||| b == 0x23
    ||| b == 0x24
    ||| b == 0x25
    ||| b == 0x26
    ||| b == 0x27
    ||| b == 0x2a
    ||| b == 0x2b
    ||| b == 0x2d
    ||| b == 0x2e
    ||| b == 0x5e
    ||| b == 0x5f
    ||| b == 0x60
    ||| b == 0x7c
    ||| b == 0x7e
}

/// Longest header name, in bytes.
pub open spec fn max_header_name_len() -> nat {
    65535
}

/// A header name is one to 65535 bytes, each a name byte.
pub open spec fn is_header_name(bytes: Seq<u8>) -> bool {
    &&& 1 <= bytes.len() <= max_header_name_len()
    &&& forall|i: int| 0 <= i < bytes.len() ==> is_header_name_byte(#[trigger] bytes[i])
}

/// An upper-case letter as its lower-case letter, any other byte as it is.
pub open spec fn lower_case_byte(b: u8) -> u8 {
    if 0x41 <= b <= 0x5a {
        (b + 0x20) as u8
    } else {
        b
    }
}

/// A header name as the map keeps it: in lower case.
pub open spec fn lower_case_name(bytes: Seq<u8>) -> Seq<char> {
    Seq::new(bytes.len(), |i: int| lower_case_byte(bytes[i]) as char)
}

/// The bytes that a header value may be made of: tab, and everything from
/// the space upwards but DEL.
pub open spec fn is_header_value_byte(b: u8) -> bool {
    b == 0x09 || (b >= 0x20 && b != 0x7f)
}

/// A header value is any number of value bytes.
pub open spec fn is_header_value(bytes: Seq<u8>) -> bool {
    forall|i: int| 0 <= i < bytes.len() ==> is_header_value_byte(#[trigger] bytes[i])
}

/// A map that holds fewer names than this takes one more.
///
/// The map refuses a header only where its table of more than 16384 slots
/// would have to grow, which takes 3277 names at the least, or where it
/// holds 32768 names.
pub const HEADER_ROOM: usize = 3277;

/// `HeaderMap::new` makes a map without headers.
pub assume_specification[ HeaderMap::new ]() -> (headers: HeaderMap)
    ensures
        header_entries(headers) == no_headers(),
        header_names_held(headers) == 0,
;

/// `HeaderName::from_bytes` takes exactly the header names, and keeps the
/// name in lower case.
pub assume_specification[ HeaderName::from_bytes ](src: &[u8]) -> (r: Result<
    HeaderName,
    InvalidHeaderName,
>)
    ensures
        r is Ok <==> is_header_name(src@),
        r matches Ok(name) ==> header_name_text(name) == lower_case_name(src@),
;

/// `HeaderValue::from_str` takes exactly the strings whose UTF-8 bytes make
/// a header value, and keeps those bytes.
pub assume_specification[ HeaderValue::from_str ](src: &str) -> (r: Result<
    HeaderValue,
    InvalidHeaderValue,
>)
    ensures
        r is Ok <==> is_header_value(encode_utf8(src@)),
        r matches Ok(value) ==> header_value_bytes(value) == encode_utf8(src@),
;

/// `HeaderMap::try_insert` with a parsed name. When it returns `Ok`, the
/// value has taken the place of all that stood under the name; when the
/// map could not grow it returns the error and holds what it held. A map
/// with room returns `Ok`, and no call adds more than one name. Unlike
/// `insert` it does not panic on a map that cannot grow.
#[verifier::external_body]
pub(crate) fn try_insert_header(headers: &mut HeaderMap, name: HeaderName, value: HeaderValue) -> (r:
    Result<Option<HeaderValue>, MaxSizeReached>)
    ensures
        r is Ok ==> header_entries(*final(headers)) == header_entries(*old(headers)).insert(
            header_name_text(name),
            seq![header_value_bytes(value)],
        ),
        r is Err ==> header_entries(*final(headers)) == header_entries(*old(headers)),
        header_names_held(*old(headers)) < HEADER_ROOM ==> r is Ok,
        header_names_held(*final(headers)) <= header_names_held(*old(headers)) + 1,
{
    headers.try_insert(name, value)
}

/// Why a header was not set. Each holds the client's own error.
#[derive(Debug)]
pub enum HeaderError {
    /// The name is not a header name.
    InvalidName(InvalidHeaderName),
    /// The value holds a byte that no header value may hold.
    InvalidValue(InvalidHeaderValue),
    /// The map cannot take another header.
    MapFull(MaxSizeReached),
}

impl HeaderError {
    /// The sentence shown to the user: the client's own words for its
    /// error.
    pub fn message(&self) -> (text: String)
        ensures
            match *self {
                HeaderError::InvalidName(e) => vstd::string::to_string_from_display_ensures::<
                    InvalidHeaderName,
                >(&e, text),
                HeaderError::InvalidValue(e) => vstd::string::to_string_from_display_ensures::<
                    InvalidHeaderValue,
                >(&e, text),
                HeaderError::MapFull(e) => vstd::string::to_string_from_display_ensures::<
                    MaxSizeReached,
                >(&e, text),
            },
    {
        match self {
            HeaderError::InvalidName(e) => e.to_string(),
            HeaderError::InvalidValue(e) => e.to_string(),
            HeaderError::MapFull(e) => e.to_string(),
        }
    }
}

/// What setting a header comes to, given what the map answered: done when
/// the map took the value, `MapFull` with the map's error when it could
/// not grow.
pub fn insert_outcome(answer: Result<Option<HeaderValue>, MaxSizeReached>) -> (r: Result<
    (),
    HeaderError,
>)
    ensures
        answer is Ok ==> r == Ok::<(), HeaderError>(()),
        answer matches Err(e) ==> r == Err::<(), HeaderError>(HeaderError::MapFull(e)),
{
    match answer {
        Ok(_) => Ok(()),
        Err(e) => Err(HeaderError::MapFull(e)),
    }
}

/// What the headers are after `set_header` came back with `r`.
pub open spec fn headers_after_set(
    before: Map<Seq<char>, Seq<Seq<u8>>>,
    key: Seq<char>,
    value: Seq<char>,
    r: Result<(), HeaderError>,
) -> Map<Seq<char>, Seq<Seq<u8>>> {
    if r is Ok {
        before.insert(lower_case_name(encode_utf8(key)), seq![encode_utf8(value)])
    } else {
        before
    }
}

/// Names are blind to case and the last write wins: of two headers set
/// one after the other under names that differ in case at most, only the
/// second is left, as if the first had never been set.
pub proof fn lemma_last_write_wins(
    before: Map<Seq<char>, Seq<Seq<u8>>>,
    first_key: Seq<char>,
    first_value: Seq<char>,
    second_key: Seq<char>,
    second_value: Seq<char>,
)
    requires
        lower_case_name(encode_utf8(first_key)) == lower_case_name(encode_utf8(second_key)),
    ensures
        headers_after_set(
            headers_after_set(before, first_key, first_value, Ok(())),
            second_key,
            second_value,
            Ok(()),
        ) == headers_after_set(before, second_key, second_value, Ok(())),
{
    let name = lower_case_name(encode_utf8(second_key));
    assert(before.insert(name, seq![encode_utf8(first_value)]).insert(
        name,
        seq![encode_utf8(second_value)],
    ) =~= before.insert(name, seq![encode_utf8(second_value)]));
}

/// Sets header `key` to `value`, in place of whatever the name held.
///
/// The name is checked first, then the value. Names are kept in lower
/// case, so a name written in another case replaces the same header. A
/// map with room takes every header whose name and value pass.
pub fn set_header(headers: &mut HeaderMap, key: &str, value: &str) -> (r: Result<(), HeaderError>)
    ensures
        header_entries(*final(headers)) == headers_after_set(
            header_entries(*old(headers)),
            key@,
            value@,
            r,
        ),
        header_names_held(*final(headers)) <= header_names_held(*old(headers)) + 1,
        !is_header_name(encode_utf8(key@)) <==> r matches Err(HeaderError::InvalidName(_)),
        is_header_name(encode_utf8(key@)) && !is_header_value(encode_utf8(value@)) <==> r matches Err(
            HeaderError::InvalidValue(_),
        ),
        header_names_held(*old(headers)) < HEADER_ROOM ==> (r is Ok <==> is_header_name(
            encode_utf8(key@),
        ) && is_header_value(encode_utf8(value@))),
{
    let name = match HeaderName::from_bytes(key.as_bytes()) {
        Ok(name) => name,
        Err(e) => {
            return Err(HeaderError::InvalidName(e));
        },
    };
    let value = match HeaderValue::from_str(value) {
        Ok(value) => value,
        Err(e) => {
            return Err(HeaderError::InvalidValue(e));
        },
    };
    insert_outcome(try_insert_header(headers, name, value))
}

} // verus!
