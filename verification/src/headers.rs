//! Read access to request headers.

use axum::http::{HeaderMap, HeaderValue};
use vstd::prelude::*;

verus! {

#[verifier::external_type_specification]
#[verifier::external_body]
#[verifier::reject_recursive_types(T)]
pub struct ExHeaderMap<T>(HeaderMap<T>);

#[verifier::external_type_specification]
#[verifier::external_body]
pub struct ExHeaderValue(HeaderValue);

/// The entries of a header map, in its iteration order: each lower-case
/// header name with one of its values, the first value of a name first.
pub uninterp spec fn header_map_entries(headers: HeaderMap) -> Seq<(Seq<char>, Seq<u8>)>;

/// The raw bytes of a header value.
pub uninterp spec fn header_value_bytes(value: HeaderValue) -> Seq<u8>;

/// The value of the first entry named `name`.
pub open spec fn first_header_value(entries: Seq<(Seq<char>, Seq<u8>)>, name: Seq<char>) -> Option<
    Seq<u8>,
>
    decreases entries.len(),
{
    if entries.len() == 0 {
        None
    } else if entries[0].0 == name {
        Some(entries[0].1)
    } else {
        first_header_value(entries.drop_first(), name)
    }
}

/// A header name as `HeaderName` stores it: non-empty, lower-case letters,
/// digits and dashes.
pub open spec fn is_lowercase_header_name(name: Seq<char>) -> bool {
    &&& name.len() > 0
    &&& forall|i: int|
        0 <= i < name.len() ==> ('a' <= #[trigger] name[i] <= 'z' || '0' <= name[i] <= '9'
            || name[i] == '-')
}

/// `HeaderMap::get`: the first value stored under `name`.
#[verifier::external_body]
fn header_get<'a>(headers: &'a HeaderMap, name: &'static str) -> (r: Option<&'a HeaderValue>)
    requires
        is_lowercase_header_name(name@),
    ensures
        match r {
            Some(value) => first_header_value(header_map_entries(*headers), name@) == Some(
                header_value_bytes(*value),
            ),
            None => first_header_value(header_map_entries(*headers), name@) is None,
        },
{
    headers.get(name)
}

/// `HeaderValue::as_bytes`: the raw bytes of a value.
#[verifier::external_body]
fn header_value_as_bytes(value: &HeaderValue) -> (b: &[u8])
    ensures
        b@ == header_value_bytes(*value),
{
    value.as_bytes()
}

/// The raw bytes of the first header named `name`, if there is one.
pub fn header_bytes(headers: &HeaderMap, name: &'static str) -> (r: Option<Vec<u8>>)
    requires
        is_lowercase_header_name(name@),
    ensures
        match r {
            Some(v) => first_header_value(header_map_entries(*headers), name@) == Some(v@),
            None => first_header_value(header_map_entries(*headers), name@) is None,
        },
{
    match header_get(headers, name) {
        Some(value) => {
            let bytes = header_value_as_bytes(value);
            Some(vstd::slice::slice_to_vec(bytes))
        },
        None => None,
    }
}

} // verus!
