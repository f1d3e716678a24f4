//! Discovery: from a service role to the addresses at which it can be
//! reached.
//!
//! Addresses given at construction are used as they are. A role without any
//! is looked up in the directory once; what the directory answers is kept
//! for as long as this value lives.

use crate::error::FetchError;
use crate::service::directory::{service_path, DirectoryInterface};
use crate::service::headers::holds_nothing;
use crate::service::request::{FetchOpts, HttpRequestMethod};
use crate::service::ServiceType;
use crate::text::views;
use vstd::prelude::*;

verus! {

/// Copies a list of strings.
pub fn copy_strings(v: &Vec<String>) -> (r: Vec<String>)
    ensures
        views(r@) == views(v@),
{
    let mut r: Vec<String> = Vec::new();
    let mut i: usize = 0;
    while i < v.len()
        invariant
            i <= v.len(),
            r@.len() == i,
            views(r@) == views(v@).take(i as int),
        decreases v.len() - i,
    {
        let ghost before = r@;
        r.push(v[i].clone());
        i = i + 1;
        proof {
            assert forall|j: int| 0 <= j < i implies views(r@)[j] == views(v@)[j] by {
                if j < i - 1 {
                    assert(r@[j] == before[j]);
                    assert(views(before)[j] == views(v@).take(i - 1)[j]);
                }
            }
            assert(views(r@) =~= views(v@).take(i as int));
        }
    }
    assert(views(v@).take(v.len() as int) =~= views(v@));
    r
}

/// The texts held by an optional list of strings.
pub open spec fn list_view(urls: Option<Vec<String>>) -> Option<Seq<Seq<char>>> {
    match urls {
        Some(v) => Some(views(v@)),
        None => None,
    }
}

/// What is known of a role after the directory has answered: what was known
/// before, if anything was, and otherwise the addresses that the answer
/// brought. An answer that brought no list leaves the role unknown.
pub open spec fn learn(known: Option<Seq<Seq<char>>>, answer: Option<Seq<Seq<char>>>) -> Option<
    Seq<Seq<char>>,
> {
    if known is Some {
        known
    } else {
        answer
    }
}

/// The list that an answer of the directory brought, if it brought one.
pub open spec fn answer_view(found: Result<Option<Vec<String>>, FetchError>) -> Option<
    Seq<Seq<char>>,
> {
    match found {
        Ok(urls) => list_view(urls),
        Err(_) => None,
    }
}

/// The addresses of the services, by role.
pub struct DiscoveryInterface {
    directory: Option<Vec<String>>,
    config_db: Option<Vec<String>>,
    authentication: Option<Vec<String>>,
    mqtt: Option<Vec<String>>,
    command_escalation: Option<Vec<String>>,
}

fn seed(url: Option<String>) -> (r: Option<Vec<String>>)
    ensures
        match url {
            Some(u) => list_view(r) == Some(seq![u@]),
            None => r is None,
        },
{
    match url {
        Some(u) => {
            let mut v: Vec<String> = Vec::new();
            v.push(u);
            assert(views(v@) =~= seq![u@]);
            Some(v)
        },
        None => None,
    }
}

impl DiscoveryInterface {
    /// The addresses known for `service`, in order of preference, or `None`
    /// if the role has not been resolved yet.
    pub closed spec fn known(&self, service: ServiceType) -> Option<Seq<Seq<char>>> {
        match service {
            ServiceType::Directory => list_view(self.directory),
            ServiceType::ConfigDb => list_view(self.config_db),
            ServiceType::Authentication => list_view(self.authentication),
            ServiceType::MQTT => list_view(self.mqtt),
            ServiceType::CommandEscalation => list_view(self.command_escalation),
        }
    }

    /// True when every role but `service` is known alike in both.
    pub open spec fn same_elsewhere(&self, other: &DiscoveryInterface, service: ServiceType) -> bool {
        forall|s: ServiceType| s != service ==> self.known(s) == other.known(s)
    }

    /// Seeds discovery with the addresses that are configured. A role
    /// without one stays unknown until the directory has been asked.
    pub fn from(
        auth_url: Option<String>,
        config_db_url: Option<String>,
        directory_url: Option<String>,
        mqtt_url: Option<String>,
        cmd_esc_url: Option<String>,
    ) -> (d: Self)
        ensures
            d.known(ServiceType::Authentication) == seeded(auth_url),
            d.known(ServiceType::ConfigDb) == seeded(config_db_url),
            d.known(ServiceType::Directory) == seeded(directory_url),
            d.known(ServiceType::MQTT) == seeded(mqtt_url),
            d.known(ServiceType::CommandEscalation) == seeded(cmd_esc_url),
    {
        DiscoveryInterface {
            directory: seed(directory_url),
            config_db: seed(config_db_url),
            authentication: seed(auth_url),
            mqtt: seed(mqtt_url),
            command_escalation: seed(cmd_esc_url),
        }
    }

    fn take(&mut self, service: ServiceType) -> (urls: Option<Vec<String>>)
        ensures
            list_view(urls) == old(self).known(service),
            final(self).known(service) is None,
            final(self).same_elsewhere(old(self), service),
    {
        let mut urls: Option<Vec<String>> = None;
        match service {
            ServiceType::Directory => std::mem::swap(&mut self.directory, &mut urls),
            ServiceType::ConfigDb => std::mem::swap(&mut self.config_db, &mut urls),
            ServiceType::Authentication => std::mem::swap(&mut self.authentication, &mut urls),
            ServiceType::MQTT => std::mem::swap(&mut self.mqtt, &mut urls),
            ServiceType::CommandEscalation => std::mem::swap(
                &mut self.command_escalation,
                &mut urls,
            ),
        }
        urls
    }

    fn put(&mut self, service: ServiceType, urls: Option<Vec<String>>)
        ensures
            final(self).known(service) == list_view(urls),
            final(self).same_elsewhere(old(self), service),
    {
        match service {
            ServiceType::Directory => self.directory = urls,
            ServiceType::ConfigDb => self.config_db = urls,
            ServiceType::Authentication => self.authentication = urls,
            ServiceType::MQTT => self.mqtt = urls,
            ServiceType::CommandEscalation => self.command_escalation = urls,
        }
    }

    /// Makes `service_url` the only address of `service`, and returns the
    /// addresses that it replaces, if the role was known.
    pub fn set_service_url(&mut self, service: ServiceType, service_url: String) -> (previous:
        Option<Vec<String>>)
        ensures
            list_view(previous) == old(self).known(service),
            final(self).known(service) == Some(seq![service_url@]),
            final(self).same_elsewhere(old(self), service),
    {
        let previous = self.take(service);
        let mut urls: Vec<String> = Vec::new();
        urls.push(service_url);
        assert(views(urls@) =~= seq![service_url@]);
        self.put(service, Some(urls));
        previous
    }

    /// Adds `service_url` after the addresses already known for `service`.
    pub fn add_service_url(&mut self, service: ServiceType, service_url: String)
        ensures
            final(self).known(service) == Some(
                match old(self).known(service) {
                    Some(urls) => urls.push(service_url@),
                    None => seq![service_url@],
                },
            ),
            final(self).same_elsewhere(old(self), service),
    {
        let mut urls = match self.take(service) {
            Some(urls) => urls,
            None => Vec::new(),
        };
        let ghost before = views(urls@);
        urls.push(service_url);
        assert(views(urls@) =~= before.push(service_url@));
        self.put(service, Some(urls));
    }

    /// The addresses known for `service`, or `None` when the directory has
    /// to be asked.
    pub fn get_service_urls(&self, service: ServiceType) -> (r: Option<Vec<String>>)
        ensures
            list_view(r) == self.known(service),
    {
        let held = match service {
            ServiceType::Directory => &self.directory,
            ServiceType::ConfigDb => &self.config_db,
            ServiceType::Authentication => &self.authentication,
            ServiceType::MQTT => &self.mqtt,
            ServiceType::CommandEscalation => &self.command_escalation,
        };
        match held {
            Some(urls) => Some(copy_strings(urls)),
            None => None,
        }
    }

    /// The request that asks the directory where `service` lives.
    pub fn find_service_urls(
        &self,
        service: ServiceType,
        directory_interface: &DirectoryInterface,
    ) -> (o: FetchOpts)
        ensures
            o.url@ == service_path(service),
            o.service == ServiceType::Directory,
            o.method == HttpRequestMethod::GET,
            holds_nothing(o.headers),
            o.query is None,
            o.body is None,
    {
        directory_interface.service_urls_request(service)
    }

    /// Takes note of the directory's answer about `service` and returns
    /// the addresses to use.
    ///
    /// Addresses that were known before the answer came stay as they are.
    /// Otherwise a list that the answer brought is kept from now on, so that
    /// the directory is not asked again; an answer without a list, or a
    /// failure, is not kept.
    pub fn resolve(&mut self, service: ServiceType, found: Result<Option<Vec<String>>, FetchError>) -> (r:
        Result<Option<Vec<String>>, FetchError>)
        ensures
            final(self).known(service) == learn(old(self).known(service), answer_view(found)),
            final(self).same_elsewhere(old(self), service),
            match r {
                Ok(urls) => list_view(urls) == final(self).known(service) && !(old(self).known(
                    service,
                ) is None && found is Err),
                Err(e) => old(self).known(service) is None && found == Err::<
                    Option<Vec<String>>,
                    FetchError,
                >(e),
            },
    {
        let held = self.take(service);
        match held {
            Some(urls) => {
                let copy = copy_strings(&urls);
                self.put(service, Some(urls));
                Ok(Some(copy))
            },
            None => match found {
                Ok(Some(urls)) => {
                    let copy = copy_strings(&urls);
                    self.put(service, Some(urls));
                    Ok(Some(copy))
                },
                Ok(None) => Ok(None),
                Err(e) => Err(e),
            },
        }
    }
}

/// What discovery knows of a role that was configured with `url`.
pub open spec fn seeded(url: Option<String>) -> Option<Seq<Seq<char>>> {
    match url {
        Some(u) => Some(seq![u@]),
        None => None,
    }
}

/// Discovery caches: once the directory has answered with a list for a role
/// that was unknown, the role is known with exactly that list, and it stays
/// so whatever the directory answers later. A failure or an answer without
/// a list is not kept.
pub proof fn law_discovery_caches(
    urls: Seq<Seq<char>>,
    later: Option<Seq<Seq<char>>>,
)
    ensures
        learn(None, Some(urls)) == Some(urls),
        learn(learn(None, Some(urls)), later) == Some(urls),
        learn(None, None) is None,
{
}

} // verus!
