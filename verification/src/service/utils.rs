//! Header normalisation for outgoing requests.

use crate::error::FetchError;
use crate::service::headers::{
    copy_headers, has_header, header_count, header_fields, header_room, put_header,
    value_bytes_ok, KnownHeader,
};
use vstd::prelude::*;
use vstd::string::{StringExecFns, StringSliceAdditionalSpecFns};

verus! {

/// The bytes of the media type that is offered and sent by default.
pub open spec fn json_bytes() -> Seq<u8> {
    "application/json".spec_bytes()
}

/// `fields` with `value` under `name`, unless `name` already holds something.
pub open spec fn with_default(
    fields: Map<Seq<char>, Seq<Seq<u8>>>,
    name: KnownHeader,
    value: Seq<u8>,
) -> Map<Seq<char>, Seq<Seq<u8>>> {
    if fields.contains_key(name.name_text()) {
        fields
    } else {
        fields.insert(name.name_text(), seq![value])
    }
}

/// The headers that go out for a request that came with `fields`: `accept`
/// is always present, `content-type` is present whenever there is a body, and
/// whatever the caller supplied for either is kept.
pub open spec fn normalized(fields: Map<Seq<char>, Seq<Seq<u8>>>, has_body: bool) -> Map<
    Seq<char>,
    Seq<Seq<u8>>,
> {
    let accepted = with_default(fields, KnownHeader::Accept, json_bytes());
    if has_body {
        with_default(accepted, KnownHeader::ContentType, json_bytes())
    } else {
        accepted
    }
}

/// True when the caller supplied every header that normalisation would
/// otherwise add.
pub open spec fn already_normal(fields: Map<Seq<char>, Seq<Seq<u8>>>, has_body: bool) -> bool {
    &&& fields.contains_key(KnownHeader::Accept.name_text())
    &&& has_body ==> fields.contains_key(KnownHeader::ContentType.name_text())
}

/// The default media type may stand in a header value.
pub proof fn lemma_json_value_ok()
    ensures
        value_bytes_ok(json_bytes()),
{
    broadcast use vstd::string::is_ascii_spec_bytes;

    let s = "application/json";
    reveal_strlit("application/json");
    assert(vstd::string::is_ascii(s));
    assert(s.spec_bytes() =~= Seq::new(s@.len(), |i: int| s@.index(i) as u8));
}

/// The message of the error returned when a default header cannot be set.
pub open spec fn header_error_text() -> Seq<char> {
    "Couldn't create correct header values."@
}

/// What normalisation returns once the header collection has said whether it
/// took the last default: the headers themselves, or the error for `url`.
pub fn headers_or_error(done: bool, headers: http::HeaderMap, url: &String) -> (r: Result<
    http::HeaderMap,
    FetchError,
>)
    ensures
        match r {
            Ok(h) => done && h == headers,
            Err(e) => !done && e.message@ == header_error_text() && e.url@ == url@,
        },
{
    if done {
        Ok(headers)
    } else {
        Err(
            FetchError {
                message: String::from_str("Couldn't create correct header values."),
                url: url.clone(),
            },
        )
    }
}

/// Returns the headers with which a request goes out, leaving the caller's
/// own untouched.
///
/// `Accept: application/json` is added unless the caller set `Accept`, and
/// `Content-Type: application/json` is added when there is a body unless the
/// caller set `Content-Type`. The call succeeds when nothing has to be
/// added, and whenever the caller's headers leave room for two more names.
/// Only a header collection that is full can refuse a default, and then the
/// error for `url` is returned.
pub fn check_correct_headers(headers: &http::HeaderMap, body: &Option<String>, url: &String) -> (r:
    Result<http::HeaderMap, FetchError>)
    ensures
        match r {
            Ok(h) => header_fields(h) == normalized(header_fields(*headers), body is Some),
            Err(e) => e.message@ == header_error_text() && e.url@ == url@,
        },
        already_normal(header_fields(*headers), body is Some) ==> r is Ok,
        header_count(*headers) + 1 < header_room() ==> r is Ok,
        r matches Ok(h) ==> header_count(h) <= header_count(*headers) + 2,
{
    proof {
        lemma_json_value_ok();
    }
    let mut local_headers = copy_headers(headers);
    if !has_header(&local_headers, KnownHeader::Accept) {
        let done = put_header(&mut local_headers, KnownHeader::Accept, "application/json");
        if !done {
            return headers_or_error(false, local_headers, url);
        }
    }
    if body.is_some() && !has_header(&local_headers, KnownHeader::ContentType) {
        let done = put_header(&mut local_headers, KnownHeader::ContentType, "application/json");
        if !done {
            return headers_or_error(false, local_headers, url);
        }
    }
    headers_or_error(true, local_headers, url)
}

} // verus!
