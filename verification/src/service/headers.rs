//! The header collection of the `http` crate, as seen from verified code.
//!
//! The collection itself is opaque. Its contents are named by
//! [`header_fields`] and the number of names it holds by [`header_count`].
//! Each operation that this crate performs on it is a small function whose
//! contract, stated over those names, is taken on trust from the `http`
//! crate's source.

use vstd::prelude::*;
use vstd::string::StringSliceAdditionalSpecFns;

verus! {

/// `http::HeaderMap`, the header collection. Nothing of its inside is
/// visible to verified code.
#[verifier::external_type_specification]
#[verifier::external_body]
#[verifier::reject_recursive_types(T)]
pub struct ExHeaderMap<T>(http::HeaderMap<T>);

/// `http::HeaderValue`, the value type of the header collection. Nothing of
/// its inside is visible to verified code.
#[verifier::external_type_specification]
#[verifier::external_body]
pub struct ExHeaderValue(http::HeaderValue);

/// What a header collection holds: for each header name present, written in
/// lower case, its values in order, each as its bytes.
pub uninterp spec fn header_fields(m: http::HeaderMap) -> Map<Seq<char>, Seq<Seq<u8>>>;

/// How many header names a collection holds.
pub uninterp spec fn header_count(m: http::HeaderMap) -> nat;

/// The contents of a collection that holds nothing.
pub open spec fn no_fields() -> Map<Seq<char>, Seq<Seq<u8>>> {
    Map::empty()
}

/// A number of names below which a collection always has room for one more.
/// A collection refuses to grow only when its table would pass a fixed
/// size, which no collection with fewer names than this can reach.
pub open spec fn header_room() -> nat {
    6554
}

/// True when the collection holds no header at all.
pub open spec fn holds_nothing(m: http::HeaderMap) -> bool {
    header_fields(m) == no_fields() && header_count(m) == 0
}

/// The headers that this crate sets by itself.
#[derive(Clone, Copy, PartialEq, Eq, Debug, Structural)]
pub enum KnownHeader {
    Accept,
    ContentType,
}

impl KnownHeader {
    /// The lower-case name under which the header is held.
    pub open spec fn name_text(self) -> Seq<char> {
        match self {
            KnownHeader::Accept => "accept"@,
            KnownHeader::ContentType => "content-type"@,
        }
    }
}

/// True when every byte may stand in a header value: a tab, or any byte from
/// 32 up except 127.
pub open spec fn value_bytes_ok(bytes: Seq<u8>) -> bool {
    forall|i: int|
        0 <= i < bytes.len() ==> (#[trigger] bytes[i] >= 32 && bytes[i] != 127) || bytes[i] == 9
}

/// `http::HeaderMap::new`: a collection that holds nothing.
#[verifier::external_body]
pub(crate) fn new_headers() -> (m: http::HeaderMap)
    ensures
        header_fields(m) == no_fields(),
        header_count(m) == 0,
{
    http::HeaderMap::new()
}

/// `Clone::clone` of `http::HeaderMap`: a collection with the same contents,
/// and so with as many names.
#[verifier::external_body]
pub(crate) fn copy_headers(m: &http::HeaderMap) -> (r: http::HeaderMap)
    ensures
        header_fields(r) == header_fields(*m),
        header_count(r) == header_count(*m),
{
    m.clone()
}

/// `http::HeaderMap::is_empty`: true exactly when no header is held.
#[verifier::external_body]
pub(crate) fn no_headers(m: &http::HeaderMap) -> (b: bool)
    ensures
        b == (header_fields(*m) == no_fields()),
{
    m.is_empty()
}

/// `http::HeaderMap::contains_key` with one of the `http::header` name
/// constants: true exactly when a value is held under that name.
#[verifier::external_body]
pub(crate) fn has_header(m: &http::HeaderMap, name: KnownHeader) -> (b: bool)
    ensures
        b == header_fields(*m).contains_key(name.name_text()),
{
    match name {
        KnownHeader::Accept => m.contains_key(http::header::ACCEPT),
        KnownHeader::ContentType => m.contains_key(http::header::CONTENT_TYPE),
    }
}

/// `http::HeaderValue::from_str` followed by `http::HeaderMap::try_insert`.
///
/// The value is refused, and `false` returned, when one of its bytes may not
/// stand in a header value. Otherwise the collection decides: it refuses
/// only when its table would have to grow past a fixed size, which cannot
/// happen while it holds fewer than [`header_room`] names. On `true` the
/// name holds exactly the one new value, every other name is as before, and
/// at most one name has been added. Nothing is claimed of the collection
/// after a `false`.
#[verifier::external_body]
pub(crate) fn put_header(m: &mut http::HeaderMap, name: KnownHeader, value: &str) -> (done: bool)
    ensures
        done ==> value_bytes_ok(value.spec_bytes()),
        value_bytes_ok(value.spec_bytes()) && header_count(*old(m)) < header_room() ==> done,
        done ==> header_fields(*final(m)) == header_fields(*old(m)).insert(
            name.name_text(),
            seq![value.spec_bytes()],
        ),
        done ==> header_count(*final(m)) <= header_count(*old(m)) + 1,
{
    let Ok(v) = http::HeaderValue::from_str(value) else {
        return false;
    };
    match name {
        KnownHeader::Accept => m.try_insert(http::header::ACCEPT, v).is_ok(),
        KnownHeader::ContentType => m.try_insert(http::header::CONTENT_TYPE, v).is_ok(),
    }
}

} // verus!
