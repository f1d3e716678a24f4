//! The directory service, which advertises where the other services live.

pub mod service_provider;

use crate::error::FetchError;
use crate::service::directory::service_provider::ServiceProvider;
use crate::service::headers::{holds_nothing, new_headers};
use crate::service::request::{FetchOpts, HttpRequestMethod};
use crate::service::ServiceType;
use crate::text::{trim_one, views, without_trailing};
use crate::uuids::{to_text, uuid_text};
use vstd::prelude::*;
use vstd::string::StringExecFns;

verus! {

/// The interface to the directory service.
pub struct DirectoryInterface {
    pub service_type: ServiceType,
    pub service_username: String,
    pub service_password: String,
    pub service_url: String,
}

/// The addresses that a list of advertisements offers: those of the
/// advertisements that carry one, in order, each without one trailing `/`.
pub open spec fn advertised(providers: Seq<ServiceProvider>) -> Seq<Seq<char>>
    decreases providers.len(),
{
    if providers.len() == 0 {
        Seq::empty()
    } else {
        let head = advertised(providers.drop_last());
        match providers.last().url {
            Some(url) => head.push(trim_one(url@, '/')),
            None => head,
        }
    }
}

/// The path at which the directory lists the advertisements of a service.
pub open spec fn service_path(service: ServiceType) -> Seq<char> {
    "/v1/service/"@ + uuid_text(service.uuid())
}

/// The path at which a process publishes its own address for a service.
pub open spec fn advertisement_path(service_name: Seq<char>) -> Seq<char> {
    "/v1/service/"@ + service_name + "/advertisement"@
}

/// The body that publishes `url`: `{"url": "<url>"}`.
pub open spec fn advertisement_body(url: Seq<char>) -> Seq<char> {
    "{\"url\": \""@ + url + "\"}"@
}

/// The message of the error returned when the directory's answer cannot be
/// read.
pub open spec fn directory_error_text() -> Seq<char> {
    "Couldn't decode service response."@
}

impl DirectoryInterface {
    /// An interface to the directory at `service_url`.
    pub fn from(service_username: String, service_password: String, service_url: String) -> (d:
        Self)
        ensures
            d.service_type == ServiceType::Directory,
            d.service_username == service_username,
            d.service_password == service_password,
            d.service_url == service_url,
    {
        DirectoryInterface {
            service_type: ServiceType::Directory,
            service_username,
            service_password,
            service_url,
        }
    }

    /// The request that asks the directory where `service` lives:
    /// `GET /v1/service/<identifier>`.
    pub fn service_urls_request(&self, service: ServiceType) -> (o: FetchOpts)
        ensures
            o.url@ == service_path(service),
            o.service == ServiceType::Directory,
            o.method == HttpRequestMethod::GET,
            holds_nothing(o.headers),
            o.query is None,
            o.body is None,
    {
        let id = to_text(service.to_uuid());
        let mut url = String::from_str("/v1/service/");
        url.append(id.as_str());
        FetchOpts {
            url,
            service: ServiceType::Directory,
            method: HttpRequestMethod::GET,
            headers: new_headers(),
            query: None,
            body: None,
        }
    }

    /// The addresses that the directory's answer offers.
    ///
    /// `providers` is what the body of the answer held, or `None` if it
    /// could not be read as a list of advertisements. An answer with status
    /// 200 yields the advertised addresses, each without one trailing `/`;
    /// advertisements without an address are passed over. An unreadable
    /// answer with status 200 is an error. Any other status yields nothing.
    pub fn service_urls(&self, status: u16, providers: Option<Vec<ServiceProvider>>) -> (r: Result<
        Option<Vec<String>>,
        FetchError,
    >)
        ensures
            match r {
                Ok(Some(urls)) => status == 200 && providers is Some && views(urls@) == advertised(
                    providers.unwrap()@,
                ),
                Ok(None) => status != 200,
                Err(e) => status == 200 && providers is None && e.message@
                    == directory_error_text() && e.url == self.service_url,
            },
    {
        if status != 200 {
            return Ok(None);
        }
        match providers {
            Some(list) => {
                let mut urls: Vec<String> = Vec::new();
                let mut i: usize = 0;
                while i < list.len()
                    invariant
                        i <= list.len(),
                        views(urls@) == advertised(list@.take(i as int)),
                    decreases list.len() - i,
                {
                    let ghost before = views(urls@);
                    proof {
                        assert(list@.take(i + 1).drop_last() =~= list@.take(i as int));
                    }
                    match &list[i].url {
                        Some(url) => {
                            let trimmed = without_trailing(url.as_str(), '/');
                            urls.push(trimmed);
                            assert(views(urls@) =~= before.push(trim_one(url@, '/')));
                        },
                        None => {},
                    }
                    i = i + 1;
                }
                proof {
                    assert(list@.take(list.len() as int) =~= list@);
                }
                Ok(Some(urls))
            },
            None => Err(
                FetchError {
                    message: String::from_str("Couldn't decode service response."),
                    url: self.service_url.clone(),
                },
            ),
        }
    }

    /// The request that publishes `url` as this process's address for the
    /// service called `service_name`:
    /// `PUT /v1/service/<name>/advertisement` with body `{"url": "<url>"}`.
    pub fn register_service_url(&self, service_name: String, url: String) -> (o: FetchOpts)
        ensures
            o.url@ == advertisement_path(service_name@),
            o.service == ServiceType::Directory,
            o.method == HttpRequestMethod::PUT,
            holds_nothing(o.headers),
            o.query is None,
            o.body is Some && o.body.unwrap()@ == advertisement_body(url@),
    {
        let mut path = String::from_str("/v1/service/");
        path.append(service_name.as_str());
        path.append("/advertisement");
        let mut body = String::from_str("{\"url\": \"");
        body.append(url.as_str());
        body.append("\"}");
        FetchOpts {
            url: path,
            service: ServiceType::Directory,
            method: HttpRequestMethod::PUT,
            headers: new_headers(),
            query: None,
            body: Some(body),
        }
    }
}

} // verus!
