//! The request headers that the filters read, held in `http::HeaderMap`.
use vstd::prelude::*;
use http::{HeaderMap, HeaderValue};

verus! {

#[verifier::external_type_specification]
#[verifier::external_body]
#[verifier::reject_recursive_types(T)]
pub struct ExHeaderMap<T>(HeaderMap<T>);

#[verifier::external_type_specification]
#[verifier::external_body]
pub struct ExHeaderValue(HeaderValue);

/// What a header map holds, as `HeaderMap::get` reads it: for each header name
/// (lower case), the bytes of the first value stored under it.
pub uninterp spec fn header_first_values(h: HeaderMap) -> Map<Seq<char>, Seq<u8>>;

/// A header name written in lower case letters, digits and dashes: the form in
/// which `HeaderMap` stores names, so that a lookup by it finds what was stored.
pub open spec fn is_lower_header_name(s: Seq<char>) -> bool {
    s.len() > 0 && forall|i: int|
        0 <= i < s.len() ==> {
            let c = #[trigger] s[i];
            ('a' <= c && c <= 'z') || ('0' <= c && c <= '9') || c == '-'
        }
}

/// Calls `HeaderMap::get` with a header name and copies out the bytes of the
/// value found (`HeaderValue::as_bytes`). The contract says that the value is
/// the first one stored under that name, and that there is none when no value
/// is stored under it.
#[verifier::external_body]
pub(crate) fn header_get(headers: &HeaderMap, name: &str) -> (r: Option<Vec<u8>>)
    requires
        is_lower_header_name(name@),
    ensures
        r is Some <==> header_first_values(*headers).contains_key(name@),
        r matches Some(v) ==> v@ == header_first_values(*headers)[name@],
{
    headers.get(name).map(|v| v.as_bytes().to_vec())
}

} // verus!
