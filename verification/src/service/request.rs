//! What is asked of the mesh.

use crate::service::headers::{
    copy_headers, header_count, header_fields, holds_nothing, new_headers,
};
use crate::service::ServiceType;
use vstd::prelude::*;

verus! {

/// The subset of request methods that the mesh uses.
#[derive(PartialEq, Eq, Clone, Copy, Debug, Structural)]
pub enum HttpRequestMethod {
    GET,
    POST,
    PUT,
    PATCH,
    DELETE,
    HEAD,
}

/// The texts held by a list of name/value pairs.
pub open spec fn pair_views(v: Seq<(String, String)>) -> Seq<(Seq<char>, Seq<char>)> {
    Seq::new(v.len(), |i: int| (v[i].0@, v[i].1@))
}

/// The texts held by an optional list of name/value pairs.
pub open spec fn query_view(q: Option<Vec<(String, String)>>) -> Option<
    Seq<(Seq<char>, Seq<char>)>,
> {
    match q {
        Some(v) => Some(pair_views(v@)),
        None => None,
    }
}

/// Copies a list of name/value pairs.
pub fn copy_pairs(v: &Vec<(String, String)>) -> (r: Vec<(String, String)>)
    ensures
        pair_views(r@) == pair_views(v@),
{
    let mut r: Vec<(String, String)> = Vec::new();
    let mut i: usize = 0;
    while i < v.len()
        invariant
            i <= v.len(),
            r@.len() == i,
            pair_views(r@) == pair_views(v@).take(i as int),
        decreases v.len() - i,
    {
        let ghost before = r@;
        let name = v[i].0.clone();
        let value = v[i].1.clone();
        r.push((name, value));
        i = i + 1;
        proof {
            assert forall|j: int| 0 <= j < i implies pair_views(r@)[j] == pair_views(v@)[j] by {
                if j < i - 1 {
                    assert(r@[j] == before[j]);
                    assert(pair_views(before)[j] == pair_views(v@).take(i - 1)[j]);
                }
            }
            assert(pair_views(r@) =~= pair_views(v@).take(i as int));
        }
    }
    assert(pair_views(v@).take(v.len() as int) =~= pair_views(v@));
    r
}

/// A request to one service of the mesh. It is a plain value: the pipeline
/// derives the final address and headers from it without changing it.
#[derive(Debug)]
pub struct FetchOpts {
    /// The path below the service's base address, starting with `/`.
    pub url: String,
    /// The service that is asked.
    pub service: ServiceType,
    pub method: HttpRequestMethod,
    pub headers: http::HeaderMap,
    /// Query parameters, each name at most once.
    pub query: Option<Vec<(String, String)>>,
    pub body: Option<String>,
}

impl FetchOpts {
    /// An empty `GET` to the directory: no path, no headers, no query and
    /// no body.
    pub fn new() -> (o: Self)
        ensures
            o.url@ == Seq::<char>::empty(),
            o.service == ServiceType::Directory,
            o.method == HttpRequestMethod::GET,
            holds_nothing(o.headers),
            o.query is None,
            o.body is None,
    {
        FetchOpts {
            url: String::new(),
            service: ServiceType::Directory,
            method: HttpRequestMethod::GET,
            headers: new_headers(),
            query: None,
            body: None,
        }
    }
}

impl Clone for FetchOpts {
    fn clone(&self) -> (o: Self)
        ensures
            o.url == self.url,
            o.service == self.service,
            o.method == self.method,
            header_fields(o.headers) == header_fields(self.headers),
            header_count(o.headers) == header_count(self.headers),
            query_view(o.query) == query_view(self.query),
            o.body == self.body,
    {
        FetchOpts {
            url: self.url.clone(),
            service: self.service,
            method: self.method,
            headers: copy_headers(&self.headers),
            query: match &self.query {
                Some(v) => Some(copy_pairs(v)),
                None => None,
            },
            body: match &self.body {
                Some(b) => Some(b.clone()),
                None => None,
            },
        }
    }
}

} // verus!
