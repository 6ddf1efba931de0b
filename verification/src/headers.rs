//! Reading the headers of a response.
//!
//! The transport hands over the headers as hyper's `HeaderMap`. To the
//! verifier the map is opaque; what a lookup finds in it is modelled as a
//! mathematical map from header names, in lower case, to the bytes of the
//! first value stored under each name.

use hyper::header::HeaderValue;
use hyper::header::ToStrError;
use hyper::HeaderMap;
use vstd::prelude::*;
use vstd::string::*;
use vstd::utf8::encode_utf8;

verus! {

broadcast use vstd::string::group_string_axioms;

/// The header that carries the caller's own id of a request.
pub const CLIENT_REQUEST_ID: &'static str = "x-ms-client-request-id";

/// The header that names the lease that a request acts on, and the lease
/// that a response speaks of.
pub const LEASE_ID: &'static str = "x-ms-lease-id";

/// The header that says what a lease request does to the lease.
pub const LEASE_ACTION: &'static str = "x-ms-lease-action";

/// The header that carries the entity tag.
pub const ETAG: &'static str = "etag";

/// The header that says when the resource was last changed.
pub const LAST_MODIFIED: &'static str = "last-modified";

/// The header that carries the service's id of the request.
pub const REQUEST_ID: &'static str = "x-ms-request-id";

/// The header that says when the response was made.
pub const DATE: &'static str = "date";

/// hyper's `HeaderMap`, the headers of a response as the transport received
/// them. Nothing inside it is visible here; `header_fields` names what it
/// holds.
#[verifier::external_type_specification]
#[verifier::external_body]
#[verifier::reject_recursive_types(T)]
pub struct ExHeaderMap<T>(HeaderMap<T>);

/// hyper's `HeaderValue`, one value of a header. Nothing inside it is visible
/// here; `value_bytes` names its bytes.
#[verifier::external_type_specification]
#[verifier::external_body]
pub struct ExHeaderValue(HeaderValue);

/// hyper's `ToStrError`, the error of `HeaderValue::to_str`. It says nothing
/// but that the value is not text.
#[verifier::external_type_specification]
#[verifier::external_body]
pub struct ExToStrError(ToStrError);

/// What a header map holds, as lookups see it: under each header name, which
/// the map keeps in lower case, the bytes of the first value stored for it.
pub uninterp spec fn header_fields(headers: HeaderMap<HeaderValue>) -> Map<Seq<char>, Seq<u8>>;

/// The bytes of a header value.
pub uninterp spec fn value_bytes(value: HeaderValue) -> Seq<u8>;

/// The length in bytes that a header name must stay under: a header map
/// holds no name that long, and takes none in a lookup.
pub const NAME_LIMIT: usize = 65536;

/// Whether a name, in UTF-8, is short enough to be looked up.
pub open spec fn within_name_limit(name: Seq<char>) -> bool {
    encode_utf8(name).len() < NAME_LIMIT
}

/// A character with an upper-case ASCII letter turned into lower case.
pub open spec fn lower_char(c: char) -> char {
    if 'A' <= c <= 'Z' {
        ((c as u8) + 32) as u8 as char
    } else {
        c
    }
}

/// A header name as header maps keep it: in lower case.
pub open spec fn lower(name: Seq<char>) -> Seq<char> {
    Seq::new(name.len(), |i: int| lower_char(name[i]))
}

/// The bytes that may stand in a header value that is text: printable ASCII,
/// the space and the tab.
pub open spec fn is_visible(b: u8) -> bool {
    32 <= b < 127 || b == 9
}

/// Whether a header value is text.
pub open spec fn all_visible(bytes: Seq<u8>) -> bool {
    forall|i: int| 0 <= i < bytes.len() ==> is_visible(#[trigger] bytes[i])
}

/// Bytes of ASCII as characters.
pub open spec fn ascii_text(bytes: Seq<u8>) -> Seq<char> {
    Seq::new(bytes.len(), |i: int| bytes[i] as char)
}

/// `HeaderMap::get`, called with the name as a `&str`. The map keeps header
/// names in lower case and turns the name that it is asked for into lower
/// case before it compares, so the lookup finds the first value stored under
/// `lower(name)`, or nothing. A name that is no header name at all, such as
/// the empty one, finds nothing: the map keeps none like it. The outside
/// function panics on a name of 65536 bytes or more, so such a name is not
/// admitted.
#[verifier::external_body]
fn first_value<'a>(
    headers: &'a HeaderMap<HeaderValue>,
    name: &str,
) -> (found: Option<&'a HeaderValue>)
    requires
        within_name_limit(name@),
    ensures
        found is Some <==> header_fields(*headers).contains_key(lower(name@)),
        found matches Some(value) ==> header_fields(*headers)[lower(name@)] == value_bytes(*value),
{
    headers.get(name)
}

/// `HeaderValue::to_str`: the value as text if every byte of it is printable
/// ASCII, a space or a tab, and an error otherwise.
pub assume_specification<'a>[ HeaderValue::to_str ](
    value: &'a HeaderValue,
) -> (text: Result<&'a str, ToStrError>)
    ensures
        text is Ok <==> all_visible(value_bytes(*value)),
        text matches Ok(s) ==> s@ == ascii_text(value_bytes(*value)),
;

/// What a lookup of one header gives.
#[derive(Debug, Clone, Copy, PartialEq, Eq)]
pub enum HeaderLookup<'a> {
    /// The map has no header of that name.
    Absent,
    /// The header is there, but its value is not text.
    Unreadable,
    /// The header's value.
    Text(&'a str),
}

/// A `HeaderLookup` as mathematical values.
pub enum Lookup {
    Absent,
    Unreadable,
    Text(Seq<char>),
}

impl<'a> View for HeaderLookup<'a> {
    type V = Lookup;

    open spec fn view(&self) -> Lookup {
        match self {
            HeaderLookup::Absent => Lookup::Absent,
            HeaderLookup::Unreadable => Lookup::Unreadable,
            HeaderLookup::Text(text) => Lookup::Text(text@),
        }
    }
}

/// What a lookup of `name` gives in a map that holds `fields`. The name's
/// case does not matter. A name that is too long names no header.
pub open spec fn lookup(fields: Map<Seq<char>, Seq<u8>>, name: Seq<char>) -> Lookup {
    if !within_name_limit(name) || !fields.contains_key(lower(name)) {
        Lookup::Absent
    } else if !all_visible(fields[lower(name)]) {
        Lookup::Unreadable
    } else {
        Lookup::Text(ascii_text(fields[lower(name)]))
    }
}

/// Looks one header up by name, whatever the case of the name.
pub fn header_text<'a>(
    headers: &'a HeaderMap<HeaderValue>,
    name: &str,
) -> (found: HeaderLookup<'a>)
    ensures
        found@ == lookup(header_fields(*headers), name@),
{
    if name.as_bytes().len() >= NAME_LIMIT {
        return HeaderLookup::Absent;
    }
    match first_value(headers, name) {
        None => HeaderLookup::Absent,
        Some(value) => match value.to_str() {
            Ok(text) => HeaderLookup::Text(text),
            Err(_) => HeaderLookup::Unreadable,
        },
    }
}

/// Two names that differ only in the case of their letters find the same.
pub proof fn lemma_lookup_ignores_case(
    fields: Map<Seq<char>, Seq<u8>>,
    name: Seq<char>,
    other: Seq<char>,
)
    requires
        lower(name) == lower(other),
        within_name_limit(name),
        within_name_limit(other),
    ensures
        lookup(fields, name) == lookup(fields, other),
{
}

} // verus!
