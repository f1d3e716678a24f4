//! The configuration store: the requests that read, write and search
//! configuration entries, and the meaning of its answers.

pub mod configdb_models;

use crate::error::FetchError;
use crate::service::configdb::configdb_models::{ObjectRegistration, PrincipalConfig};
use crate::service::headers::{
    header_count, header_fields, holds_nothing, new_headers, no_fields, put_header,
    value_bytes_ok, KnownHeader,
};
use crate::service::request::{pair_views, FetchOpts, HttpRequestMethod};
use crate::service::ServiceType;
use crate::text::{decimal, decimal_string};
use crate::uuids::{to_text, uuid_text};
use vstd::prelude::*;
use vstd::string::{StringExecFns, StringSliceAdditionalSpecFns};

verus! {

/// The interface to the configuration store.
pub struct ConfigDbInterface {
    pub service_type: ServiceType,
    pub service_username: String,
    pub service_password: String,
    pub directory_url: String,
    pub service_url: String,
}

/// The status line that the `http` crate shows for a status code: the
/// number, a space, and the standard reason phrase.
pub uninterp spec fn status_line_text(status: u16) -> Seq<char>;

/// The identifiers that a JSON text lists, if it is a JSON array of
/// identifier strings.
pub uninterp spec fn json_uuid_list(body: Seq<char>) -> Option<Seq<u128>>;

/// The text that `Debug` formatting shows for a string: the string between
/// double quotes, with special characters escaped.
pub uninterp spec fn quoted_text(s: Seq<char>) -> Seq<char>;

/// `http::StatusCode::from_u16` followed by the status code's `Display`.
/// There is a status line exactly for the codes from 100 to 999.
#[verifier::external_body]
fn status_line(status: u16) -> (r: Option<String>)
    ensures
        r is Some <==> 100 <= status <= 999,
        r matches Some(line) ==> line@ == status_line_text(status),
{
    match http::StatusCode::from_u16(status) {
        Ok(code) => Some(code.to_string()),
        Err(_) => None,
    }
}

/// `serde_json::from_str` at the type `Vec<uuid::Uuid>`, each identifier
/// handed out as its number by `uuid::Uuid::as_u128`.
#[verifier::external_body]
fn decode_uuid_list(body: &str) -> (r: Option<Vec<u128>>)
    ensures
        r is Some <==> json_uuid_list(body@) is Some,
        r matches Some(ids) ==> json_uuid_list(body@) == Some(ids@),
{
    match serde_json::from_str::<Vec<uuid::Uuid>>(body) {
        Ok(ids) => Some(ids.into_iter().map(|id| id.as_u128()).collect()),
        Err(_) => None,
    }
}

/// `Debug` formatting of a `str`.
#[verifier::external_body]
fn quoted(s: &str) -> (r: String)
    ensures
        r@ == quoted_text(s@),
{
    format!("{:?}", s)
}

/// How a status is shown in a message: by its status line, or by its
/// number alone if it has none.
pub open spec fn status_shown(status: u16) -> Seq<char> {
    if 100 <= status <= 999 {
        status_line_text(status)
    } else {
        decimal(status as nat)
    }
}

fn show_status(status: u16) -> (s: String)
    ensures
        s@ == status_shown(status),
{
    match status_line(status) {
        Some(line) => line,
        None => decimal_string(status as u64),
    }
}

/// The path of the entry that application `app` holds for object `obj`.
pub open spec fn config_path(app: u128, obj: u128) -> Seq<char> {
    "/v1/app/"@ + uuid_text(app) + "/object/"@ + uuid_text(obj)
}

/// The path of the object `obj`.
pub open spec fn object_path(obj: u128) -> Seq<char> {
    "/v1/object/"@ + uuid_text(obj)
}

/// The path under which objects are created.
pub open spec fn objects_path() -> Seq<char> {
    "/v1/object"@
}

/// The class part of a search path: the class if one is given, else nothing.
pub open spec fn class_text(class: Option<String>) -> Seq<char> {
    match class {
        Some(c) => c@,
        None => Seq::empty(),
    }
}

/// The path under which application `app` is searched.
pub open spec fn search_path(app: u128, class: Option<String>) -> Seq<char> {
    "/v1/app/"@ + uuid_text(app) + class_text(class) + "/search"@
}

/// The body that registers an object: `{"Uuid":"<uuid>","Class":"<class>"}`.
pub open spec fn registration_body(uuid: u128, class: u128) -> Seq<char> {
    "{\"Uuid\":\""@ + uuid_text(uuid) + "\",\"Class\":\""@ + uuid_text(class) + "\"}"@
}

/// The bytes of the media type of a merge patch.
pub open spec fn merge_patch_bytes() -> Seq<u8> {
    "application/merge-patch+json".spec_bytes()
}

/// The media type of a merge patch may stand in a header value.
pub proof fn lemma_merge_patch_value_ok()
    ensures
        value_bytes_ok(merge_patch_bytes()),
{
    broadcast use vstd::string::is_ascii_spec_bytes;

    let s = "application/merge-patch+json";
    reveal_strlit("application/merge-patch+json");
    assert(vstd::string::is_ascii(s));
    assert(s.spec_bytes() =~= Seq::new(s@.len(), |i: int| s@.index(i) as u8));
}

/// `pairs` with `value` under `name`: in place of the first pair of that
/// name if there is one, else at the end.
pub open spec fn upsert(pairs: Seq<(Seq<char>, Seq<char>)>, name: Seq<char>, value: Seq<char>) -> Seq<
    (Seq<char>, Seq<char>),
>
    decreases pairs.len(),
{
    if pairs.len() == 0 {
        seq![(name, value)]
    } else if pairs[0].0 == name {
        seq![(name, value)] + pairs.drop_first()
    } else {
        seq![pairs[0]] + upsert(pairs.drop_first(), name, value)
    }
}

/// `base` with each of `more` put in, in order.
pub open spec fn upsert_all(base: Seq<(Seq<char>, Seq<char>)>, more: Seq<(Seq<char>, Seq<char>)>) -> Seq<
    (Seq<char>, Seq<char>),
>
    decreases more.len(),
{
    if more.len() == 0 {
        base
    } else {
        let head = upsert_all(base, more.drop_last());
        upsert(head, more.last().0, more.last().1)
    }
}

/// The parameters of a search: those of `query` and those of `results`,
/// each name once, a later value replacing an earlier one of the same name.
pub open spec fn merged(query: Seq<(Seq<char>, Seq<char>)>, results: Seq<(Seq<char>, Seq<char>)>) -> Seq<
    (Seq<char>, Seq<char>),
> {
    upsert_all(upsert_all(Seq::empty(), query), results)
}

/// True when no two pairs have the same name.
pub open spec fn distinct_names(pairs: Seq<(Seq<char>, Seq<char>)>) -> bool {
    forall|i: int, j: int| 0 <= i < j < pairs.len() ==> pairs[i].0 != pairs[j].0
}

/// Putting a value under a name that occurs first at `at` replaces the pair
/// there.
pub proof fn lemma_upsert_found(
    pairs: Seq<(Seq<char>, Seq<char>)>,
    name: Seq<char>,
    value: Seq<char>,
    at: int,
)
    requires
        0 <= at < pairs.len(),
        pairs[at].0 == name,
        forall|j: int| 0 <= j < at ==> pairs[j].0 != name,
    ensures
        upsert(pairs, name, value) == pairs.update(at, (name, value)),
    decreases pairs.len(),
{
    if at == 0 {
        assert(upsert(pairs, name, value) =~= pairs.update(at, (name, value)));
    } else {
        let rest = pairs.drop_first();
        assert forall|j: int| 0 <= j < at - 1 implies rest[j].0 != name by {
            assert(rest[j] == pairs[j + 1]);
        }
        lemma_upsert_found(rest, name, value, at - 1);
        assert(upsert(pairs, name, value) =~= pairs.update(at, (name, value)));
    }
}

/// Putting a value under a name that does not occur appends the pair.
pub proof fn lemma_upsert_new(pairs: Seq<(Seq<char>, Seq<char>)>, name: Seq<char>, value: Seq<char>)
    requires
        forall|j: int| 0 <= j < pairs.len() ==> pairs[j].0 != name,
    ensures
        upsert(pairs, name, value) == pairs.push((name, value)),
    decreases pairs.len(),
{
    if pairs.len() == 0 {
        assert(upsert(pairs, name, value) =~= pairs.push((name, value)));
    } else {
        let rest = pairs.drop_first();
        assert forall|j: int| 0 <= j < rest.len() implies rest[j].0 != name by {
            assert(rest[j] == pairs[j + 1]);
        }
        lemma_upsert_new(rest, name, value);
        assert(upsert(pairs, name, value) =~= pairs.push((name, value)));
    }
}

fn put_pair(out: &mut Vec<(String, String)>, name: &String, value: &String)
    requires
        distinct_names(pair_views(old(out)@)),
    ensures
        pair_views(final(out)@) == upsert(pair_views(old(out)@), name@, value@),
        distinct_names(pair_views(final(out)@)),
{
    let ghost before = pair_views(out@);
    let mut i: usize = 0;
    while i < out.len()
        invariant
            i <= out.len(),
            out@ == old(out)@,
            before == pair_views(out@),
            distinct_names(before),
            forall|j: int| 0 <= j < i ==> before[j].0 != name@,
        decreases out.len() - i,
    {
        if out[i].0 == *name {
            proof {
                lemma_upsert_found(before, name@, value@, i as int);
            }
            out.set(i, (name.clone(), value.clone()));
            proof {
                let after = pair_views(out@);
                assert(after =~= before.update(i as int, (name@, value@)));
                assert forall|a: int, b: int| 0 <= a < b < after.len() implies after[a].0
                    != after[b].0 by {
                    assert(after[a].0 == before[a].0);
                    assert(after[b].0 == before[b].0);
                }
            }
            return ;
        }
        i = i + 1;
    }
    proof {
        lemma_upsert_new(before, name@, value@);
    }
    out.push((name.clone(), value.clone()));
    proof {
        let after = pair_views(out@);
        assert(after =~= before.push((name@, value@)));
        assert forall|a: int, b: int| 0 <= a < b < after.len() implies after[a].0 != after[b].0 by {
            if b < before.len() {
                assert(after[a].0 == before[a].0);
                assert(after[b].0 == before[b].0);
            }
        }
    }
}

fn put_pairs(out: &mut Vec<(String, String)>, more: &Vec<(String, String)>)
    requires
        distinct_names(pair_views(old(out)@)),
    ensures
        pair_views(final(out)@) == upsert_all(pair_views(old(out)@), pair_views(more@)),
        distinct_names(pair_views(final(out)@)),
{
    let mut i: usize = 0;
    while i < more.len()
        invariant
            i <= more.len(),
            distinct_names(pair_views(out@)),
            pair_views(out@) == upsert_all(pair_views(old(out)@), pair_views(more@).take(i as int)),
        decreases more.len() - i,
    {
        proof {
            assert(pair_views(more@).take(i + 1).drop_last() =~= pair_views(more@).take(i as int));
        }
        put_pair(out, &more[i].0, &more[i].1);
        i = i + 1;
    }
    proof {
        assert(pair_views(more@).take(more.len() as int) =~= pair_views(more@));
    }
}

/// The messages of the errors that the answers of the store can bring.
pub open spec fn config_parse_error_text() -> Seq<char> {
    "Couldn't parse response into a principal config."@
}

pub open spec fn config_error_text() -> Seq<char> {
    "Can't get object."@
}

pub open spec fn header_value_error_text() -> Seq<char> {
    "Couldn't create correct header value."@
}

pub open spec fn registration_parse_error_text() -> Seq<char> {
    "Couldn't parse response into an object registration."@
}

pub open spec fn search_parse_error_text() -> Seq<char> {
    "Failed to parse a UUID from response."@
}

pub open spec fn search_error_text() -> Seq<char> {
    "ConfigDB search failed."@
}

/// The message for an object that could not be created, with the status
/// put into words as `shown`.
pub open spec fn create_error_with(
    class: u128,
    maybe_obj_uuid: Option<u128>,
    is_exclusive: bool,
    status: u16,
    shown: Seq<char>,
) -> Seq<char> {
    if status == 200 && is_exclusive {
        "Exclusive create of "@ + uuid_text(object_or_nil(maybe_obj_uuid)) + " failed"@
    } else if status == 200 || status == 201 {
        registration_parse_error_text()
    } else if maybe_obj_uuid is Some {
        shown + ": Creating "@ + uuid_text(object_or_nil(maybe_obj_uuid)) + " failed"@
    } else {
        shown + ": Creating new "@ + uuid_text(class) + " failed"@
    }
}

/// The message for an object that could not be created.
pub open spec fn create_error_text(
    class: u128,
    maybe_obj_uuid: Option<u128>,
    is_exclusive: bool,
    status: u16,
) -> Seq<char> {
    create_error_with(class, maybe_obj_uuid, is_exclusive, status, status_shown(status))
}

/// The identifier under which an object is asked for: the one given, or the
/// nil identifier to let the store choose.
pub open spec fn object_or_nil(maybe_obj_uuid: Option<u128>) -> u128 {
    match maybe_obj_uuid {
        Some(id) => id,
        None => 0,
    }
}

/// The parameters shown in a message, in the form `{"name": "value", ...}`.
pub open spec fn pairs_shown(pairs: Seq<(Seq<char>, Seq<char>)>) -> Seq<char> {
    "{"@ + pairs_listed(pairs) + "}"@
}

/// The parameters, each as `"name": "value"`, separated by `, `.
pub open spec fn pairs_listed(pairs: Seq<(Seq<char>, Seq<char>)>) -> Seq<char>
    decreases pairs.len(),
{
    if pairs.len() == 0 {
        Seq::empty()
    } else if pairs.len() == 1 {
        quoted_text(pairs[0].0) + ": "@ + quoted_text(pairs[0].1)
    } else {
        pairs_listed(pairs.drop_last()) + ", "@ + quoted_text(pairs.last().0) + ": "@ + quoted_text(
            pairs.last().1,
        )
    }
}

/// The message for a search that was to find one object and found
/// several, with the query put into words as `shown`.
pub open spec fn ambiguous_with(app: u128, shown: Seq<char>) -> Seq<char> {
    "Returned more than once result: "@ + uuid_text(app) + " with "@ + shown
}

/// The message for a search that was to find one object and found several.
pub open spec fn ambiguous_text(app: u128, query: Seq<(Seq<char>, Seq<char>)>) -> Seq<char> {
    ambiguous_with(app, pairs_shown(query))
}

fn show_pairs(pairs: &Vec<(String, String)>) -> (s: String)
    ensures
        s@ == pairs_shown(pair_views(pairs@)),
{
    let mut s = String::from_str("{");
    let mut i: usize = 0;
    while i < pairs.len()
        invariant
            i <= pairs.len(),
            s@ == "{"@ + pairs_listed(pair_views(pairs@).take(i as int)),
        decreases pairs.len() - i,
    {
        let ghost before = pair_views(pairs@).take(i as int);
        let ghost now = pair_views(pairs@).take(i + 1);
        let ghost held = s@;
        proof {
            assert(now.drop_last() =~= before);
            assert(now.last() == (pairs@[i as int].0@, pairs@[i as int].1@));
        }
        let name = quoted(pairs[i].0.as_str());
        let value = quoted(pairs[i].1.as_str());
        if i > 0 {
            s.append(", ");
        }
        s.append(name.as_str());
        s.append(": ");
        s.append(value.as_str());
        proof {
            let shown = quoted_text(now.last().0) + ": "@ + quoted_text(now.last().1);
            if i > 0 {
                assert(s@ =~= "{"@ + (pairs_listed(before) + ", "@ + quoted_text(now.last().0)
                    + ": "@ + quoted_text(now.last().1)));
            } else {
                assert(before.len() == 0);
                assert(s@ =~= "{"@ + shown);
            }
        }
        i = i + 1;
    }
    proof {
        assert(pair_views(pairs@).take(pairs.len() as int) =~= pair_views(pairs@));
    }
    s.append("}");
    s
}

fn config_url(app: u128, obj: u128) -> (s: String)
    ensures
        s@ == config_path(app, obj),
{
    let a = to_text(app);
    let o = to_text(obj);
    let mut s = String::from_str("/v1/app/");
    s.append(a.as_str());
    s.append("/object/");
    s.append(o.as_str());
    s
}

fn search_url(app: u128, class: &Option<String>) -> (s: String)
    ensures
        s@ == search_path(app, *class),
{
    let a = to_text(app);
    let mut s = String::from_str("/v1/app/");
    s.append(a.as_str());
    match class {
        Some(c) => {
            s.append(c.as_str());
        },
        None => {
            assert(s@ + Seq::<char>::empty() =~= s@);
        },
    }
    s.append("/search");
    s
}

fn plain(url: String, method: HttpRequestMethod, body: Option<String>) -> (o: FetchOpts)
    ensures
        o.url == url,
        o.service == ServiceType::ConfigDb,
        o.method == method,
        holds_nothing(o.headers),
        o.query is None,
        o.body == body,
{
    FetchOpts {
        url,
        service: ServiceType::ConfigDb,
        method,
        headers: new_headers(),
        query: None,
        body,
    }
}

impl ConfigDbInterface {
    /// An interface to the configuration store at `service_url`.
    pub fn from(
        service_username: String,
        service_password: String,
        directory_url: String,
        service_url: String,
    ) -> (c: Self)
        ensures
            c.service_type == ServiceType::ConfigDb,
            c.service_username == service_username,
            c.service_password == service_password,
            c.directory_url == directory_url,
            c.service_url == service_url,
    {
        ConfigDbInterface {
            service_type: ServiceType::ConfigDb,
            service_username,
            service_password,
            directory_url,
            service_url,
        }
    }

    fn address(&self, path: &String) -> (s: String)
        ensures
            s@ == self.service_url@ + path@,
    {
        let mut s = self.service_url.clone();
        s.append(path.as_str());
        s
    }

    /// The request that reads the entry of `app` for `obj`:
    /// `GET /v1/app/<app>/object/<obj>`.
    pub fn get_config_request(&self, app: u128, obj: u128) -> (o: FetchOpts)
        ensures
            o.url@ == config_path(app, obj),
            o.service == ServiceType::ConfigDb,
            o.method == HttpRequestMethod::GET,
            holds_nothing(o.headers),
            o.query is None,
            o.body is None,
    {
        plain(config_url(app, obj), HttpRequestMethod::GET, None)
    }

    /// The entry that the store's answer holds.
    ///
    /// `decoded` is what the body of the answer held, or `None` if it could
    /// not be read as an entry. Status 200 yields the entry, or an error if
    /// the body could not be read; status 404 yields nothing; every other
    /// status is an error. Errors name the full address of the entry.
    pub fn get_config(&self, app: u128, obj: u128, status: u16, decoded: Option<PrincipalConfig>) -> (r:
        Result<Option<PrincipalConfig>, FetchError>)
        ensures
            match r {
                Ok(Some(config)) => status == 200 && decoded == Some(config),
                Ok(None) => status == 404,
                Err(e) => {
                    &&& e.url@ == self.service_url@ + config_path(app, obj)
                    &&& status == 200 ==> decoded is None && e.message@
                        == config_parse_error_text()
                    &&& status != 200 ==> status != 404 && e.message@ == config_error_text()
                },
            },
    {
        if status == 200 {
            match decoded {
                Some(config) => Ok(Some(config)),
                None => Err(
                    FetchError {
                        message: String::from_str(
                            "Couldn't parse response into a principal config.",
                        ),
                        url: self.address(&config_url(app, obj)),
                    },
                ),
            }
        } else if status == 404 {
            Ok(None)
        } else {
            Err(
                FetchError {
                    message: String::from_str("Can't get object."),
                    url: self.address(&config_url(app, obj)),
                },
            )
        }
    }

    /// The request that writes `json_body` as the entry of `app` for `obj`:
    /// `PUT /v1/app/<app>/object/<obj>`.
    pub fn put_config(&self, app: u128, obj: u128, json_body: String) -> (o: FetchOpts)
        ensures
            o.url@ == config_path(app, obj),
            o.service == ServiceType::ConfigDb,
            o.method == HttpRequestMethod::PUT,
            holds_nothing(o.headers),
            o.query is None,
            o.body == Some(json_body),
    {
        plain(config_url(app, obj), HttpRequestMethod::PUT, Some(json_body))
    }

    /// The request that removes the entry of `app` for `obj`:
    /// `DELETE /v1/app/<app>/object/<obj>`.
    pub fn delete_config(&self, app: u128, obj: u128) -> (o: FetchOpts)
        ensures
            o.url@ == config_path(app, obj),
            o.service == ServiceType::ConfigDb,
            o.method == HttpRequestMethod::DELETE,
            holds_nothing(o.headers),
            o.query is None,
            o.body is None,
    {
        plain(config_url(app, obj), HttpRequestMethod::DELETE, None)
    }

    /// What `patch_config` returns once the header collection has said
    /// whether it took the media type: the request itself, or the error for
    /// the full address of the entry.
    pub fn patch_or_error(&self, done: bool, request: FetchOpts) -> (r: Result<FetchOpts, FetchError>)
        ensures
            match r {
                Ok(o) => done && o == request,
                Err(e) => !done && e.message@ == header_value_error_text() && e.url@
                    == self.service_url@ + request.url@,
            },
    {
        if done {
            Ok(request)
        } else {
            Err(
                FetchError {
                    message: String::from_str("Couldn't create correct header value."),
                    url: self.address(&request.url),
                },
            )
        }
    }

    /// The request that merges `patch` into the entry of `app` for `obj`:
    /// `PATCH /v1/app/<app>/object/<obj>` with the media type
    /// `application/merge-patch+json`.
    ///
    /// The media type is a valid header value and the request's header
    /// collection is new, so the request is always returned.
    pub fn patch_config(&self, app: u128, obj: u128, patch: String) -> (r: Result<
        FetchOpts,
        FetchError,
    >)
        ensures
            r is Ok,
            match r {
                Ok(o) => {
                    &&& o.url@ == config_path(app, obj)
                    &&& o.service == ServiceType::ConfigDb
                    &&& o.method == HttpRequestMethod::PATCH
                    &&& header_fields(o.headers) == no_fields().insert(
                        KnownHeader::ContentType.name_text(),
                        seq![merge_patch_bytes()],
                    )
                    &&& header_count(o.headers) <= 1
                    &&& o.query is None
                    &&& o.body == Some(patch)
                },
                Err(e) => e.message@ == header_value_error_text() && e.url@ == self.service_url@
                    + config_path(app, obj),
            },
    {
        let mut request = plain(config_url(app, obj), HttpRequestMethod::PATCH, Some(patch));
        proof {
            lemma_merge_patch_value_ok();
        }
        let done = put_header(
            &mut request.headers,
            KnownHeader::ContentType,
            "application/merge-patch+json",
        );
        self.patch_or_error(done, request)
    }

    /// The request that creates an object of `class`: `POST /v1/object`
    /// with the object's registration as its body. Without an identifier
    /// the nil identifier is sent and the store chooses one.
    pub fn create_object_request(&self, class: u128, maybe_obj_uuid: Option<u128>) -> (o: FetchOpts)
        ensures
            o.url@ == objects_path(),
            o.service == ServiceType::ConfigDb,
            o.method == HttpRequestMethod::POST,
            holds_nothing(o.headers),
            o.query is None,
            o.body is Some && o.body.unwrap()@ == registration_body(
                object_or_nil(maybe_obj_uuid),
                class,
            ),
    {
        let obj_uuid: u128 = match maybe_obj_uuid {
            Some(id) => id,
            None => 0,
        };
        let u = to_text(obj_uuid);
        let c = to_text(class);
        let mut body = String::from_str("{\"Uuid\":\"");
        body.append(u.as_str());
        body.append("\",\"Class\":\"");
        body.append(c.as_str());
        body.append("\"}");
        plain(String::from_str("/v1/object"), HttpRequestMethod::POST, Some(body))
    }

    /// The identifier of the object that the store's answer reports, once
    /// the status has been put into words: `shown` is the status as it is to
    /// appear in a message.
    ///
    /// `decoded` is the registration that the body of the answer held, or
    /// `None` if it could not be read as one. Status 201 means the object
    /// was created, status 200 that it existed already, which is an error if
    /// the creation was to be exclusive. Any other status is an error that
    /// shows the status.
    pub fn create_object_outcome(
        &self,
        class: u128,
        maybe_obj_uuid: Option<u128>,
        is_exclusive: bool,
        status: u16,
        shown: String,
        decoded: Option<ObjectRegistration>,
    ) -> (r: Result<u128, FetchError>)
        ensures
            match r {
                Ok(id) => {
                    &&& status == 201 || (status == 200 && !is_exclusive)
                    &&& decoded is Some && id == decoded.unwrap().uuid
                },
                Err(e) => {
                    &&& !((status == 201 || (status == 200 && !is_exclusive)) && decoded is Some)
                    &&& e.message@ == create_error_with(
                        class,
                        maybe_obj_uuid,
                        is_exclusive,
                        status,
                        shown@,
                    )
                    &&& e.url@ == self.service_url@ + objects_path()
                },
            },
    {
        let obj_uuid: u128 = match maybe_obj_uuid {
            Some(id) => id,
            None => 0,
        };
        let url = self.address(&String::from_str("/v1/object"));
        if status == 200 && is_exclusive {
            let id = to_text(obj_uuid);
            let mut message = String::from_str("Exclusive create of ");
            message.append(id.as_str());
            message.append(" failed");
            Err(FetchError { message, url })
        } else if status == 200 || status == 201 {
            match decoded {
                Some(registration) => Ok(registration.uuid),
                None => Err(
                    FetchError {
                        message: String::from_str(
                            "Couldn't parse response into an object registration.",
                        ),
                        url,
                    },
                ),
            }
        } else if maybe_obj_uuid.is_some() {
            let id = to_text(obj_uuid);
            let mut message = shown;
            message.append(": Creating ");
            message.append(id.as_str());
            message.append(" failed");
            Err(FetchError { message, url })
        } else {
            let id = to_text(class);
            let mut message = shown;
            message.append(": Creating new ");
            message.append(id.as_str());
            message.append(" failed");
            Err(FetchError { message, url })
        }
    }

    /// The identifier of the object that the store's answer reports. The
    /// status is shown in messages as the `http` crate shows it.
    pub fn create_object(
        &self,
        class: u128,
        maybe_obj_uuid: Option<u128>,
        is_exclusive: bool,
        status: u16,
        decoded: Option<ObjectRegistration>,
    ) -> (r: Result<u128, FetchError>)
        ensures
            match r {
                Ok(id) => {
                    &&& status == 201 || (status == 200 && !is_exclusive)
                    &&& decoded is Some && id == decoded.unwrap().uuid
                },
                Err(e) => {
                    &&& !((status == 201 || (status == 200 && !is_exclusive)) && decoded is Some)
                    &&& e.message@ == create_error_text(
                        class,
                        maybe_obj_uuid,
                        is_exclusive,
                        status,
                    )
                    &&& e.url@ == self.service_url@ + objects_path()
                },
            },
    {
        let shown = show_status(status);
        self.create_object_outcome(class, maybe_obj_uuid, is_exclusive, status, shown, decoded)
    }

    /// The request that removes the object `obj`: `DELETE /v1/object/<obj>`.
    pub fn delete_object(&self, obj: u128) -> (o: FetchOpts)
        ensures
            o.url@ == object_path(obj),
            o.service == ServiceType::ConfigDb,
            o.method == HttpRequestMethod::DELETE,
            holds_nothing(o.headers),
            o.query is None,
            o.body is None,
    {
        let id = to_text(obj);
        let mut url = String::from_str("/v1/object/");
        url.append(id.as_str());
        plain(url, HttpRequestMethod::DELETE, None)
    }

    /// The request that searches the entries of `app`:
    /// `GET /v1/app/<app><class>/search` with the parameters of `query` and
    /// of `results`, each name once.
    pub fn search_request(
        &self,
        app: u128,
        query: &Vec<(String, String)>,
        results: &Vec<(String, String)>,
        class: Option<String>,
    ) -> (o: FetchOpts)
        ensures
            o.url@ == search_path(app, class),
            o.service == ServiceType::ConfigDb,
            o.method == HttpRequestMethod::GET,
            holds_nothing(o.headers),
            o.query is Some && pair_views(o.query.unwrap()@) == merged(
                pair_views(query@),
                pair_views(results@),
            ),
            distinct_names(pair_views(o.query.unwrap()@)),
            o.body is None,
    {
        let mut all: Vec<(String, String)> = Vec::new();
        assert(pair_views(all@) =~= Seq::empty());
        put_pairs(&mut all, query);
        put_pairs(&mut all, results);
        let mut o = plain(search_url(app, &class), HttpRequestMethod::GET, None);
        o.query = Some(all);
        o
    }

    /// The meaning of the store's answer to a search, once its body has
    /// been read: `decoded` is the list of identifiers that the body held,
    /// or `None` if it held none. Status 200 yields the list, or an error if
    /// the body could not be read; status 404 yields nothing; every other
    /// status is an error. Errors name the full address of the search.
    pub fn search_outcome(
        &self,
        app: u128,
        class: Option<String>,
        status: u16,
        decoded: Option<Vec<u128>>,
    ) -> (r: Result<Option<Vec<u128>>, FetchError>)
        ensures
            match r {
                Ok(Some(ids)) => status == 200 && decoded == Some(ids),
                Ok(None) => status == 404,
                Err(e) => {
                    &&& e.url@ == self.service_url@ + search_path(app, class)
                    &&& status == 200 ==> decoded is None && e.message@
                        == search_parse_error_text()
                    &&& status != 200 ==> status != 404 && e.message@ == search_error_text()
                },
            },
    {
        if status == 200 {
            match decoded {
                Some(ids) => Ok(Some(ids)),
                None => Err(
                    FetchError {
                        message: String::from_str("Failed to parse a UUID from response."),
                        url: self.address(&search_url(app, &class)),
                    },
                ),
            }
        } else if status == 404 {
            Ok(None)
        } else {
            Err(
                FetchError {
                    message: String::from_str("ConfigDB search failed."),
                    url: self.address(&search_url(app, &class)),
                },
            )
        }
    }

    /// The identifiers that the store's answer to a search lists. The body
    /// is read as a JSON array of identifiers only when the status is 200.
    pub fn search(&self, app: u128, class: Option<String>, status: u16, content: &str) -> (r: Result<
        Option<Vec<u128>>,
        FetchError,
    >)
        ensures
            match r {
                Ok(Some(ids)) => status == 200 && json_uuid_list(content@) == Some(ids@),
                Ok(None) => status == 404,
                Err(e) => {
                    &&& e.url@ == self.service_url@ + search_path(app, class)
                    &&& status == 200 ==> json_uuid_list(content@) is None && e.message@
                        == search_parse_error_text()
                    &&& status != 200 ==> status != 404 && e.message@ == search_error_text()
                },
            },
    {
        let decoded = if status == 200 {
            decode_uuid_list(content)
        } else {
            None
        };
        self.search_outcome(app, class, status, decoded)
    }

    /// The one object that a search found, once the query has been put
    /// into words: `shown` is the query as it is to appear in a message.
    ///
    /// `found` is what the search returned. Exactly one identifier is the
    /// answer; none, or no list at all, is no answer; more than one is an
    /// error that shows the application and the query and names the full
    /// address of the search.
    pub fn resolve_outcome(
        &self,
        app: u128,
        shown: String,
        class: Option<String>,
        found: Option<Vec<u128>>,
    ) -> (r: Result<Option<u128>, FetchError>)
        ensures
            match r {
                Ok(Some(id)) => found is Some && found.unwrap()@ == seq![id],
                Ok(None) => found is None || found.unwrap()@.len() == 0,
                Err(e) => {
                    &&& found is Some && found.unwrap()@.len() >= 2
                    &&& e.message@ == ambiguous_with(app, shown@)
                    &&& e.url@ == self.service_url@ + search_path(app, class)
                },
            },
    {
        match found {
            Some(ids) => {
                if ids.len() == 1 {
                    assert(ids@ =~= seq![ids@[0]]);
                    Ok(Some(ids[0]))
                } else if ids.len() >= 2 {
                    let id = to_text(app);
                    let mut message = String::from_str("Returned more than once result: ");
                    message.append(id.as_str());
                    message.append(" with ");
                    message.append(shown.as_str());
                    Err(FetchError { message, url: self.address(&search_url(app, &class)) })
                } else {
                    Ok(None)
                }
            },
            None => Ok(None),
        }
    }

    /// The one object that a search found. The query is shown in messages
    /// as `{"name": "value", ...}`, each text quoted as `Debug` quotes it.
    pub fn resolve(
        &self,
        app: u128,
        query: &Vec<(String, String)>,
        class: Option<String>,
        found: Option<Vec<u128>>,
    ) -> (r: Result<Option<u128>, FetchError>)
        ensures
            match r {
                Ok(Some(id)) => found is Some && found.unwrap()@ == seq![id],
                Ok(None) => found is None || found.unwrap()@.len() == 0,
                Err(e) => {
                    &&& found is Some && found.unwrap()@.len() >= 2
                    &&& e.message@ == ambiguous_text(app, pair_views(query@))
                    &&& e.url@ == self.service_url@ + search_path(app, class)
                },
            },
    {
        let shown = show_pairs(query);
        self.resolve_outcome(app, shown, class, found)
    }
}

} // verus!
