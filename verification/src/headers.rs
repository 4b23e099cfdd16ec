//! Reading a request's header fields.
//!
//! The header map is `hyper`'s (it re-exports the one of the `http` crate).
//! Verus does not look inside it: what it holds is given the name
//! [`header_fields`], and the one lookup that the service needs is a
//! trusted function whose contract speaks of that name.

use hyper::header::HeaderValue;
use hyper::HeaderMap;
use vstd::prelude::*;

verus! {

/// `http::HeaderValue`, the value of one header field: bytes, opaque here.
#[verifier::external_type_specification]
#[verifier::external_body]
pub struct ExHeaderValue(HeaderValue);

/// `http::HeaderMap`, the header fields of one request, opaque here.
#[verifier::external_type_specification]
#[verifier::external_body]
#[verifier::reject_recursive_types(T)]
pub struct ExHeaderMap<T>(HeaderMap<T>);

/// The longest name that the header map compares byte for byte without
/// folding its case first.
pub const MAX_PLAIN_NAME_LEN: usize = 64;

/// What a header map holds: for each field name that it has, written in
/// lower case, the values of that field in the order in which they were
/// added.
pub uninterp spec fn header_fields(headers: HeaderMap) -> Map<Seq<char>, Seq<Seq<u8>>>;

/// A field name made of the letters `a` to `z` only, and short enough to be
/// looked up as it is written.
pub open spec fn is_plain_name(name: Seq<char>) -> bool {
    &&& 1 <= name.len() <= MAX_PLAIN_NAME_LEN
    &&& forall|i: int| 0 <= i < name.len() ==> 'a' <= #[trigger] name[i] <= 'z'
}

/// The first value that `fields` has under `name`, if it has one.
pub open spec fn first_value(fields: Map<Seq<char>, Seq<Seq<u8>>>, name: Seq<char>) -> Option<
    Seq<u8>,
> {
    if fields.dom().contains(name) && fields[name].len() > 0 {
        Some(fields[name][0])
    } else {
        None
    }
}

/// Trusted: `http::HeaderMap::get` with a `&str` key, and
/// `http::HeaderValue::as_bytes` on what it finds.
///
/// For a name of lower-case letters the map looks up exactly that name and
/// returns the first value stored under it, or `None` where the map has no
/// such field. The value comes back as a copy of its bytes.
#[verifier::external_body]
pub(crate) fn lookup(headers: &HeaderMap, name: &str) -> (value: Option<Vec<u8>>)
    requires
        is_plain_name(name@),
    ensures
        match value {
            Some(bytes) => first_value(header_fields(*headers), name@) == Some(bytes@),
            None => first_value(header_fields(*headers), name@) is None,
        },
{
    match headers.get(name) {
        Some(found) => Some(found.as_bytes().to_vec()),
        None => None,
    }
}

} // verus!
