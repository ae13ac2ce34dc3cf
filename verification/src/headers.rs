//! HTTP header maps of the `http` crate, as seen by the verified code.
//!
//! A `HeaderMap` is opaque here. `header_entries` names the (name, value)
//! pairs it yields when iterated, each taken as its bytes; the wrappers below
//! say what each call reads from, or does to, those pairs. Every name that the
//! library passes is a fixed lowercase header name.
use vstd::prelude::*;
use http::header::{InvalidHeaderValue, MaxSizeReached};
use http::{HeaderMap, HeaderValue};
use vstd::string::StringSliceAdditionalSpecFns;
use crate::text::ascii_bytes;

verus! {

#[verifier::external_type_specification]
#[verifier::external_body]
#[verifier::reject_recursive_types(T)]
pub struct ExHeaderMap<T>(HeaderMap<T>);

#[verifier::external_type_specification]
#[verifier::external_body]
pub struct ExHeaderValue(HeaderValue);

#[verifier::external_type_specification]
#[verifier::external_body]
pub struct ExInvalidHeaderValue(InvalidHeaderValue);

#[verifier::external_type_specification]
#[verifier::external_body]
pub struct ExMaxSizeReached(MaxSizeReached);

/// The (name, value) pairs that `HeaderMap::iter` yields, in its order, each
/// name and value taken as its bytes: a name occurs once per value stored
/// under it.
pub uninterp spec fn header_entries(map: HeaderMap<HeaderValue>) -> Seq<(Seq<u8>, Seq<u8>)>;

/// The bytes of a header value.
pub uninterp spec fn header_value_bytes(value: HeaderValue) -> Seq<u8>;

/// `HeaderValue::as_bytes`: the bytes of the value.
#[verifier::external_body]
pub(crate) fn header_value_as_bytes(value: &HeaderValue) -> (b: &[u8])
    ensures
        b@ == header_value_bytes(*value),
{
    value.as_bytes()
}

/// The values stored under `name`, in order.
pub open spec fn header_values(entries: Seq<(Seq<u8>, Seq<u8>)>, name: Seq<u8>) -> Seq<Seq<u8>>
    decreases entries.len(),
{
    if entries.len() == 0 {
        seq![]
    } else {
        let rest = header_values(entries.drop_last(), name);
        if entries.last().0 == name {
            rest.push(entries.last().1)
        } else {
            rest
        }
    }
}

/// The values under every name but `name` are the same in `before` and `after`.
pub open spec fn same_except(
    before: Seq<(Seq<u8>, Seq<u8>)>,
    after: Seq<(Seq<u8>, Seq<u8>)>,
    name: Seq<u8>,
) -> bool {
    forall|k: Seq<u8>| k != name ==> #[trigger] header_values(after, k) == header_values(before, k)
}

/// A header name that `http` accepts as a static name and stores unchanged:
/// lowercase letters, digits and dashes, at most 64 of them.
pub open spec fn is_static_header_name(name: Seq<char>) -> bool {
    &&& 0 < name.len() <= 64
    &&& forall|i: int|
        0 <= i < name.len() ==> ('a' <= #[trigger] name[i] <= 'z' || '0' <= name[i] <= '9'
            || name[i] == '-')
}

/// A header value that `HeaderValue::from_static` accepts: visible ASCII
/// characters and tabs.
pub open spec fn is_static_header_value(value: Seq<char>) -> bool {
    forall|i: int| 0 <= i < value.len() ==> (' ' <= #[trigger] value[i] <= '~' || value[i] == '\t')
}

/// A header value byte that `HeaderValue::from_str` accepts.
pub open spec fn is_header_value_byte(b: u8) -> bool {
    (b >= 32 && b != 127) || b == 9
}

/// The number of distinct names that hold a value.
pub open spec fn header_name_count(entries: Seq<(Seq<u8>, Seq<u8>)>) -> nat {
    entries.map_values(|e: (Seq<u8>, Seq<u8>)| e.0).to_set().len()
}

/// `after` holds at most one value, and at most one name, more than `before`.
pub open spec fn grew_by_at_most_one(
    before: Seq<(Seq<u8>, Seq<u8>)>,
    after: Seq<(Seq<u8>, Seq<u8>)>,
) -> bool {
    &&& after.len() <= before.len() + 1
    &&& header_name_count(after) <= header_name_count(before) + 1
}

/// The fewest distinct names a map holds when `HeaderMap::try_insert` fails
/// to grow it.
pub const HEADER_CAPACITY_BOUND: usize = 6554;

/// `HeaderMap::iter`, each name taken as `HeaderName::as_str` and each value
/// as `HeaderValue::as_bytes`, copied into vectors: the entries, in order.
#[verifier::external_body]
pub(crate) fn header_map_pairs(map: &HeaderMap<HeaderValue>) -> (pairs: Vec<(Vec<u8>, Vec<u8>)>)
    ensures
        pairs.deep_view() == header_entries(*map),
{
    map.iter().map(|(k, v)| (k.as_str().as_bytes().to_vec(), v.as_bytes().to_vec())).collect()
}

/// `HeaderMap::get` with a static lowercase name: the first value stored
/// under that name, if there is one.
#[verifier::external_body]
pub(crate) fn header_map_get<'a>(map: &'a HeaderMap<HeaderValue>, name: &'static str) -> (v:
    Option<&'a HeaderValue>)
    requires
        is_static_header_name(name@),
    ensures
        match v {
            Some(value) => header_values(header_entries(*map), ascii_bytes(name@)).len() > 0
                && header_value_bytes(*value) == header_values(
                header_entries(*map),
                ascii_bytes(name@),
            )[0],
            None => header_values(header_entries(*map), ascii_bytes(name@)).len() == 0,
        },
{
    map.get(name)
}

/// `HeaderValue::from_static`: a value holding the bytes of `value`. It
/// panics on the characters that the `requires` leaves out.
#[verifier::external_body]
pub(crate) fn header_value_from_static(value: &'static str) -> (v: HeaderValue)
    requires
        is_static_header_value(value@),
    ensures
        header_value_bytes(v) == ascii_bytes(value@),
{
    HeaderValue::from_static(value)
}

/// `HeaderValue::from_str`: it succeeds exactly when every byte of `value` is
/// allowed in a header value, and then holds those bytes.
#[verifier::external_body]
pub(crate) fn header_value_from_str(value: &str) -> (r: Result<HeaderValue, InvalidHeaderValue>)
    ensures
        r is Ok <==> (forall|i: int|
            0 <= i < value.spec_bytes().len() ==> is_header_value_byte(
                #[trigger] value.spec_bytes()[i],
            )),
        r matches Ok(v) ==> header_value_bytes(v) == value.spec_bytes(),
{
    HeaderValue::from_str(value)
}

/// `HeaderMap::try_insert` under a static lowercase name (the name's
/// conversion panics on the names that the `requires` leaves out). On
/// success `value` is the only value under `name`, and the values under
/// every other name are unchanged. It fails only when the map cannot grow,
/// which takes at least `HEADER_CAPACITY_BOUND` distinct names, and then the
/// entries are left as they were. Where a new pair stands in the iteration
/// order is not stated.
#[verifier::external_body]
pub(crate) fn header_map_try_insert(
    map: &mut HeaderMap<HeaderValue>,
    name: &'static str,
    value: HeaderValue,
) -> (r: Result<(), MaxSizeReached>)
    requires
        is_static_header_name(name@),
    ensures
        r is Ok ==> header_values(header_entries(*final(map)), ascii_bytes(name@)) == seq![
            header_value_bytes(value),
        ],
        r is Ok ==> same_except(
            header_entries(*old(map)),
            header_entries(*final(map)),
            ascii_bytes(name@),
        ),
        r is Ok ==> header_entries(*final(map)).len() <= header_entries(*old(map)).len() + 1,
        r is Ok ==> header_name_count(header_entries(*final(map))) <= header_name_count(
            header_entries(*old(map)),
        ) + 1,
        r is Err ==> header_entries(*final(map)) == header_entries(*old(map)),
        r is Err ==> header_name_count(header_entries(*old(map))) >= HEADER_CAPACITY_BOUND,
{
    map.try_insert(name, value)?;
    Ok(())
}

/// `HeaderMap::remove` with a static lowercase name: afterwards no value is
/// stored under `name`, and the values under every other name are unchanged.
#[verifier::external_body]
pub(crate) fn header_map_remove(map: &mut HeaderMap<HeaderValue>, name: &'static str)
    requires
        is_static_header_name(name@),
    ensures
        header_values(header_entries(*final(map)), ascii_bytes(name@)).len() == 0,
        same_except(header_entries(*old(map)), header_entries(*final(map)), ascii_bytes(name@)),
        header_entries(*final(map)).len() <= header_entries(*old(map)).len(),
        header_name_count(header_entries(*final(map))) <= header_name_count(
            header_entries(*old(map)),
        ),
{
    map.remove(name);
}

} // verus!
