//! The service mesh: the roles a caller can address, the shared credentials,
//! and the client that ties discovery, token caching and the request pipeline
//! together.

pub mod auth;
pub mod cmdesc;
pub mod configdb;
pub mod directory;
pub mod discovery;
pub mod fetch_util;
pub mod headers;
pub mod mqtt;
pub mod pipeline;
pub mod request;
pub mod response;
pub mod tokens;
pub mod utils;

use crate::error::FetchError;
use crate::service::auth::AuthInterface;
use crate::service::cmdesc::CmdEscInterface;
use crate::service::configdb::ConfigDbInterface;
use crate::service::directory::{service_path, DirectoryInterface};
use crate::service::discovery::{answer_view, learn, list_view, DiscoveryInterface};
use crate::service::fetch_util::{
    get_new_token, token_outcome, token_url_text, TokenReply, TokenRequest,
};
use crate::service::headers::{
    header_count, header_fields, header_room, holds_nothing, new_headers, no_fields,
};
use crate::service::mqtt::MQTTInterface;
use crate::service::pipeline::{
    base_text, begin, first_address, misfit_text, next, no_address, no_address_text, seek_token,
    start_of, token_result, FetchEvent, FetchJob, FetchStep, HttpReply, Phase, Progress, Start,
};
use crate::service::request::{FetchOpts, HttpRequestMethod};
use crate::service::response::{FetchResponse, PingResponse, TokenStruct};
use crate::service::tokens::{
    complete, invalidate, outcome_view, request, Released, SlotView, TokenCache, TokenDecision,
};
use crate::service::utils::{already_normal, check_correct_headers, header_error_text, normalized};
use crate::uuids;
use crate::uuids::{to_text, uuid_text};
use vstd::prelude::*;
use vstd::string::StringExecFns;

verus! {

/// The roles of the mesh. Each has a fixed identifier, the stable key under
/// which it is discovered and its token is cached.
#[derive(Debug, Eq, Hash, PartialEq, Clone, Copy, Structural)]
pub enum ServiceType {
    Directory,
    ConfigDb,
    Authentication,
    MQTT,
    CommandEscalation,
}

impl ServiceType {
    /// The fixed identifier of this role.
    pub open spec fn uuid(self) -> u128 {
        match self {
            ServiceType::Directory => uuids::service::DIRECTORY,
            ServiceType::ConfigDb => uuids::service::CONFIG_DB,
            ServiceType::Authentication => uuids::service::AUTHENTICATION,
            ServiceType::MQTT => uuids::service::MQTT,
            ServiceType::CommandEscalation => uuids::service::COMMAND_ESCALATION,
        }
    }

    /// The name of this role.
    pub open spec fn name_text(self) -> Seq<char> {
        match self {
            ServiceType::Directory => "Directory"@,
            ServiceType::ConfigDb => "ConfigDb"@,
            ServiceType::Authentication => "Authentication"@,
            ServiceType::MQTT => "MQTT"@,
            ServiceType::CommandEscalation => "CommandEscalation"@,
        }
    }

    /// The text shown for this role: `<name> service (<identifier>)`.
    pub open spec fn text(self) -> Seq<char> {
        self.name_text() + " service ("@ + uuid_text(self.uuid()) + ")"@
    }

    /// The fixed identifier of this role.
    pub fn to_uuid(&self) -> (id: u128)
        ensures
            id == self.uuid(),
    {
        match self {
            ServiceType::Directory => uuids::service::DIRECTORY,
            ServiceType::ConfigDb => uuids::service::CONFIG_DB,
            ServiceType::Authentication => uuids::service::AUTHENTICATION,
            ServiceType::MQTT => uuids::service::MQTT,
            ServiceType::CommandEscalation => uuids::service::COMMAND_ESCALATION,
        }
    }

    pub fn to_string(&self) -> (s: String)
        ensures
            s@ == self.text(),
    {
        let mut s = match self {
            ServiceType::Directory => String::from_str("Directory"),
            ServiceType::ConfigDb => String::from_str("ConfigDb"),
            ServiceType::Authentication => String::from_str("Authentication"),
            ServiceType::MQTT => String::from_str("MQTT"),
            ServiceType::CommandEscalation => String::from_str("CommandEscalation"),
        };
        let id = to_text(self.to_uuid());
        s.append(" service (");
        s.append(id.as_str());
        s.append(")");
        s
    }
}

/// The account under which this process talks to every service.
pub struct ServiceCreds {
    service_username: String,
    service_password: String,
}

impl ServiceCreds {
    /// The account name.
    pub closed spec fn username_text(&self) -> Seq<char> {
        self.service_username@
    }

    /// The account's secret.
    pub closed spec fn password_text(&self) -> Seq<char> {
        self.service_password@
    }

    /// Credentials with an empty name and an empty secret.
    pub fn new() -> (c: Self)
        ensures
            c.username_text() == Seq::<char>::empty(),
            c.password_text() == Seq::<char>::empty(),
    {
        ServiceCreds { service_username: String::new(), service_password: String::new() }
    }

    pub fn from(user_str: &str, pass_str: &str) -> (c: Self)
        ensures
            c.username_text() == user_str@,
            c.password_text() == pass_str@,
    {
        ServiceCreds {
            service_username: String::from_str(user_str),
            service_password: String::from_str(pass_str),
        }
    }

    /// The account name.
    pub fn username(&self) -> (s: &String)
        ensures
            s@ == self.username_text(),
    {
        &self.service_username
    }

    /// The account's secret.
    pub fn password(&self) -> (s: &String)
        ensures
            s@ == self.password_text(),
    {
        &self.service_password
    }
}

/// The client of the mesh: the shared credentials, what is known of where
/// the services live, the tokens held for them, and one interface per
/// service.
pub struct ServiceClient {
    pub tokens: TokenCache,
    pub discovery: DiscoveryInterface,
    pub service_creds: ServiceCreds,
    pub auth_interface: AuthInterface,
    pub config_db_interface: ConfigDbInterface,
    pub directory_interface: DirectoryInterface,
    pub mqtt_interface: MQTTInterface,
    pub cmd_esc_interface: CmdEscInterface,
    pub root_principle: Option<String>,
    pub permission_group: Option<String>,
}

/// What a request for a token leads to.
#[derive(Debug)]
pub enum TokenStep {
    /// Use this token.
    Use(TokenStruct),
    /// Carry out this token request and report the reply.
    Acquire(TokenRequest),
    /// Wait until the acquisition under way completes.
    Await,
    /// The service has no address at which a token could be asked for.
    Nowhere,
}

/// The path at which every service answers a ping.
pub open spec fn ping_path() -> Seq<char> {
    "/ping"@
}

fn own(s: Option<&str>) -> (r: Option<String>)
    ensures
        match s {
            Some(text) => r is Some && r.unwrap()@ == text@,
            None => r is None,
        },
{
    match s {
        Some(text) => Some(String::from_str(text)),
        None => None,
    }
}

fn finish(job: FetchJob, result: Result<FetchResponse, FetchError>) -> (p: Progress)
    ensures
        p.job == (FetchJob { phase: Phase::Finished, ..job }),
        p.step == FetchStep::Done(result),
        p.released is None,
{
    let mut job = job;
    job.phase = Phase::Finished;
    Progress { job, step: FetchStep::Done(result), released: None }
}

impl ServiceClient {
    /// True when credentials, interfaces and principals are the same in
    /// both.
    pub open spec fn same_setup(&self, other: &ServiceClient) -> bool {
        &&& self.service_creds == other.service_creds
        &&& self.auth_interface == other.auth_interface
        &&& self.config_db_interface == other.config_db_interface
        &&& self.directory_interface == other.directory_interface
        &&& self.mqtt_interface == other.mqtt_interface
        &&& self.cmd_esc_interface == other.cmd_esc_interface
        &&& self.root_principle == other.root_principle
        &&& self.permission_group == other.permission_group
    }

    /// True when credentials, interfaces and principals are the same in
    /// both, but for the address that the interface of `service` holds.
    pub open spec fn same_but_url(&self, other: &ServiceClient, service: ServiceType) -> bool {
        &&& self.service_creds == other.service_creds
        &&& self.root_principle == other.root_principle
        &&& self.permission_group == other.permission_group
        &&& self.auth_interface == (AuthInterface {
            service_url: self.auth_interface.service_url,
            ..other.auth_interface
        })
        &&& self.config_db_interface == (ConfigDbInterface {
            service_url: self.config_db_interface.service_url,
            ..other.config_db_interface
        })
        &&& self.directory_interface == (DirectoryInterface {
            service_url: self.directory_interface.service_url,
            ..other.directory_interface
        })
        &&& self.mqtt_interface == (MQTTInterface {
            service_url: self.mqtt_interface.service_url,
            ..other.mqtt_interface
        })
        &&& self.cmd_esc_interface == (CmdEscInterface {
            service_url: self.cmd_esc_interface.service_url,
            ..other.cmd_esc_interface
        })
        &&& forall|s: ServiceType| s != service ==> self.interface_address(s) == other.interface_address(s)
    }

    /// The address that the interface of `service` holds, as a string.
    pub open spec fn interface_address(&self, service: ServiceType) -> String {
        match service {
            ServiceType::Directory => self.directory_interface.service_url,
            ServiceType::ConfigDb => self.config_db_interface.service_url,
            ServiceType::Authentication => self.auth_interface.service_url,
            ServiceType::MQTT => self.mqtt_interface.service_url,
            ServiceType::CommandEscalation => self.cmd_esc_interface.service_url,
        }
    }

    /// What the interface of `service` holds once discovery knows `known`
    /// of the service: the first address if there is one, and else what it
    /// held before.
    pub open spec fn address_after(
        &self,
        service: ServiceType,
        known: Option<Seq<Seq<char>>>,
    ) -> Seq<char> {
        match first_address(known) {
            Some(url) => url,
            None => self.interface_url(service),
        }
    }

    /// True when each of the five interfaces stands for its own service and
    /// holds the account with this name and secret.
    pub open spec fn holds_account(&self, username: Seq<char>, password: Seq<char>) -> bool {
        &&& self.auth_interface.service_type == ServiceType::Authentication
        &&& self.auth_interface.service_username@ == username
        &&& self.auth_interface.service_password@ == password
        &&& self.config_db_interface.service_type == ServiceType::ConfigDb
        &&& self.config_db_interface.service_username@ == username
        &&& self.config_db_interface.service_password@ == password
        &&& self.directory_interface.service_type == ServiceType::Directory
        &&& self.directory_interface.service_username@ == username
        &&& self.directory_interface.service_password@ == password
        &&& self.mqtt_interface.service_type == ServiceType::MQTT
        &&& self.mqtt_interface.service_username@ == username
        &&& self.mqtt_interface.service_password@ == password
        &&& self.cmd_esc_interface.service_type == ServiceType::CommandEscalation
        &&& self.cmd_esc_interface.service_username@ == username
        &&& self.cmd_esc_interface.service_password@ == password
    }

    /// A client that knows the directory at `directory_url` and nothing
    /// else yet: no token is held, and every other service is resolved
    /// through the directory when it is first asked.
    pub fn from(
        service_username: &str,
        service_password: &str,
        root_principle: Option<&str>,
        permission_group: Option<&str>,
        directory_url: &str,
    ) -> (c: Self)
        ensures
            forall|s: ServiceType| c.tokens.slot(s) == SlotView::Absent,
            c.discovery.known(ServiceType::Directory) == Some(seq![directory_url@]),
            forall|s: ServiceType|
                s != ServiceType::Directory ==> c.discovery.known(s) is None,
            c.service_creds.username_text() == service_username@,
            c.service_creds.password_text() == service_password@,
            c.holds_account(service_username@, service_password@),
            c.auth_interface.directory_url@ == directory_url@,
            c.config_db_interface.directory_url@ == directory_url@,
            c.directory_interface.service_url@ == directory_url@,
            c.config_db_interface.service_url@.len() == 0,
            c.mqtt_interface.service_url@.len() == 0,
            c.auth_interface.service_url@.len() == 0,
            c.cmd_esc_interface.service_url@.len() == 0,
            match root_principle {
                Some(text) => c.root_principle is Some && c.root_principle.unwrap()@ == text@,
                None => c.root_principle is None,
            },
            match permission_group {
                Some(text) => c.permission_group is Some && c.permission_group.unwrap()@
                    == text@,
                None => c.permission_group is None,
            },
    {
        ServiceClient {
            tokens: TokenCache::new(),
            discovery: DiscoveryInterface::from(
                None,
                None,
                Some(String::from_str(directory_url)),
                None,
                None,
            ),
            service_creds: ServiceCreds::from(service_username, service_password),
            auth_interface: AuthInterface::from(
                String::from_str(service_username),
                String::from_str(service_password),
                String::from_str(directory_url),
                String::new(),
            ),
            config_db_interface: ConfigDbInterface::from(
                String::from_str(service_username),
                String::from_str(service_password),
                String::from_str(directory_url),
                String::new(),
            ),
            directory_interface: DirectoryInterface::from(
                String::from_str(service_username),
                String::from_str(service_password),
                String::from_str(directory_url),
            ),
            mqtt_interface: MQTTInterface::from(
                String::from_str(service_username),
                String::from_str(service_password),
                String::new(),
            ),
            cmd_esc_interface: CmdEscInterface::from(
                String::from_str(service_username),
                String::from_str(service_password),
                String::new(),
            ),
            root_principle: own(root_principle),
            permission_group: own(permission_group),
        }
    }

    /// The address that the interface of `service` holds.
    pub open spec fn interface_url(&self, service: ServiceType) -> Seq<char> {
        match service {
            ServiceType::Directory => self.directory_interface.service_url@,
            ServiceType::ConfigDb => self.config_db_interface.service_url@,
            ServiceType::Authentication => self.auth_interface.service_url@,
            ServiceType::MQTT => self.mqtt_interface.service_url@,
            ServiceType::CommandEscalation => self.cmd_esc_interface.service_url@,
        }
    }

    /// Makes `service_url` the one address of `service`, for discovery and
    /// for the service's interface alike.
    pub fn set_service_url(&mut self, service: ServiceType, service_url: &str)
        ensures
            final(self).discovery.known(service) == Some(seq![service_url@]),
            final(self).discovery.same_elsewhere(&old(self).discovery, service),
            final(self).interface_url(service) == service_url@,
            forall|s: ServiceType|
                s != service ==> final(self).interface_url(s) == old(self).interface_url(s),
            final(self).tokens == old(self).tokens,
            final(self).service_creds == old(self).service_creds,
    {
        self.discovery.set_service_url(service, String::from_str(service_url));
        match service {
            ServiceType::Directory => self.directory_interface.service_url = String::from_str(
                service_url,
            ),
            ServiceType::ConfigDb => self.config_db_interface.service_url = String::from_str(
                service_url,
            ),
            ServiceType::Authentication => self.auth_interface.service_url = String::from_str(
                service_url,
            ),
            ServiceType::MQTT => self.mqtt_interface.service_url = String::from_str(service_url),
            ServiceType::CommandEscalation => self.cmd_esc_interface.service_url =
                String::from_str(service_url),
        }
    }

    fn note_address(&mut self, service: ServiceType, service_url: &String)
        ensures
            final(self).tokens == old(self).tokens,
            final(self).discovery == old(self).discovery,
            final(self).same_but_url(old(self), service),
            final(self).interface_url(service) == service_url@,
    {
        match service {
            ServiceType::Directory => self.directory_interface.service_url = service_url.clone(),
            ServiceType::ConfigDb => self.config_db_interface.service_url = service_url.clone(),
            ServiceType::Authentication => self.auth_interface.service_url = service_url.clone(),
            ServiceType::MQTT => self.mqtt_interface.service_url = service_url.clone(),
            ServiceType::CommandEscalation => self.cmd_esc_interface.service_url =
                service_url.clone(),
        }
    }

    fn base_of(&self, service: ServiceType) -> (base: String)
        ensures
            base@ == base_text(self.discovery.known(service)),
    {
        match self.discovery.get_service_urls(service) {
            Some(urls) => if urls.len() > 0 {
                urls[0].clone()
            } else {
                String::new()
            },
            None => String::new(),
        }
    }

    fn seek(&mut self, job: FetchJob) -> (p: Progress)
        ensures
            (final(self).tokens.slot(job.service), p.job.model(), p.step.model()) == seek_token(
                old(self).tokens.slot(job.service),
                job.caller,
                job.retried,
            ),
            final(self).tokens.same_elsewhere(&old(self).tokens, job.service),
            final(self).discovery == old(self).discovery,
            final(self).same_setup(old(self)),
            p.job == (FetchJob { phase: p.job.phase, ..job }),
            p.released is None,
            !(p.step is Resolve) && !(p.step is Done),
            p.step matches FetchStep::AcquireToken(r) ==> {
                &&& r.url@ == token_url_text(job.base_url@)
                &&& r.username@ == old(self).service_creds.username_text()
                &&& r.password@ == old(self).service_creds.password_text()
            },
    {
        let mut job = job;
        match self.tokens.get_token(job.service, job.caller) {
            TokenDecision::Hit(token) => {
                job.phase = Phase::Sending;
                Progress { job, step: FetchStep::Send { bearer: token.token }, released: None }
            },
            TokenDecision::Wait => {
                job.phase = Phase::Waiting;
                Progress { job, step: FetchStep::AwaitToken, released: None }
            },
            TokenDecision::Acquire => {
                job.phase = Phase::Acquiring;
                let request = get_new_token(
                    job.base_url.as_str(),
                    self.service_creds.username(),
                    self.service_creds.password(),
                );
                Progress { job, step: FetchStep::AcquireToken(request), released: None }
            },
        }
    }

    /// What header normalisation can return for `opts`, a request that goes
    /// to a service at `base`: the normalised headers, or the error for the
    /// request's full address. It returns the headers whenever nothing has
    /// to be added, and whenever the request's headers leave room for two
    /// more names.
    pub open spec fn normal_fits(
        opts: FetchOpts,
        base: Seq<char>,
        normal: Result<http::HeaderMap, FetchError>,
    ) -> bool {
        &&& match normal {
            Ok(headers) => header_fields(headers) == normalized(
                header_fields(opts.headers),
                opts.body is Some,
            ),
            Err(e) => e.message@ == header_error_text() && e.url@ == base + opts.url@,
        }
        &&& already_normal(header_fields(opts.headers), opts.body is Some) ==> normal is Ok
        &&& header_count(opts.headers) + 1 < header_room() ==> normal is Ok
    }

    /// What holds when `opts` has been started on behalf of `caller` with
    /// `normal` as the outcome of header normalisation: `p` is where the
    /// request stands and what to do first, `before` and `after` are the
    /// client before and after.
    ///
    /// If normalisation failed, the request has ended with that error, for
    /// its full address, and nothing else has happened. Otherwise the request carries the
    /// normalised headers and has taken the first step of [`begin`]: with
    /// the service's address known it has turned to the token cache, with
    /// the service unknown the directory is to be asked, and for a service
    /// known to have no address the request has ended with an error that
    /// says so. Only the token entry of the service that is asked may have
    /// changed.
    pub open spec fn starts(
        before: ServiceClient,
        after: ServiceClient,
        opts: FetchOpts,
        normal: Result<http::HeaderMap, FetchError>,
        caller: u64,
        p: Progress,
    ) -> bool {
        let slot = before.tokens.slot(opts.service);
        let known = before.discovery.known(opts.service);
        let outcome = (after.tokens.slot(opts.service), p.job.model(), p.step.model());
        &&& match normal {
            Err(e) => {
                &&& outcome == begin(slot, caller, Start::Refused)
                &&& header_fields(p.job.headers) == header_fields(opts.headers)
                &&& p.step matches FetchStep::Done(Err(x)) && x.message == e.message && x.url@
                    == base_text(known) + opts.url@
            },
            Ok(headers) => {
                &&& outcome == begin(slot, caller, start_of(known, opts.service))
                &&& header_fields(p.job.headers) == header_fields(headers)
                &&& match p.step {
                    FetchStep::Resolve(o) => {
                        &&& o.url@ == service_path(opts.service)
                        &&& o.service == ServiceType::Directory
                        &&& o.method == HttpRequestMethod::GET
                        &&& holds_nothing(o.headers)
                        &&& o.query is None
                        &&& o.body is None
                    },
                    FetchStep::AcquireToken(r) => {
                        &&& r.url@ == token_url_text(p.job.base_url@)
                        &&& r.username@ == before.service_creds.username_text()
                        &&& r.password@ == before.service_creds.password_text()
                    },
                    FetchStep::Done(Ok(_)) => false,
                    FetchStep::Done(Err(e)) => e.message@ == no_address_text() && e.url
                        == opts.url,
                    _ => true,
                }
            },
        }
        &&& after.tokens.same_elsewhere(&before.tokens, opts.service)
        &&& after.discovery == before.discovery
        &&& after.same_setup(&before)
        &&& p.job.service == opts.service
        &&& p.job.caller == caller
        &&& p.job.path == opts.url
        &&& p.job.method == opts.method
        &&& p.job.query == opts.query
        &&& p.job.body == opts.body
        &&& p.job.base_url@ == base_text(known)
        &&& p.released is None
    }

    /// What holds when `opts` has been started on behalf of `caller`: the
    /// request has been started, as [`ServiceClient::starts`] describes,
    /// with one of the outcomes that header normalisation can have for it.
    pub open spec fn begins(
        before: ServiceClient,
        after: ServiceClient,
        opts: FetchOpts,
        caller: u64,
        p: Progress,
    ) -> bool {
        exists|normal: Result<http::HeaderMap, FetchError>|
            Self::normal_fits(opts, base_text(before.discovery.known(opts.service)), normal)
                && #[trigger] Self::starts(
                before,
                after,
                opts,
                normal,
                caller,
                p,
            )
    }

    /// Starts a request on behalf of `caller`, once its headers have been
    /// normalised with outcome `normal`, and says what to do first.
    ///
    /// If normalisation failed the request ends at once with that error, for
    /// the request's full address. Otherwise the request goes out with the
    /// normalised headers: with the service's address known it turns to the
    /// token cache; with the service unknown the directory is to be asked;
    /// and for a service known to have no address the request ends with an
    /// error that says so.
    pub fn start(
        &mut self,
        opts: FetchOpts,
        normal: Result<http::HeaderMap, FetchError>,
        caller: u64,
    ) -> (p: Progress)
        ensures
            Self::starts(*old(self), *final(self), opts, normal, caller, p),
    {
        let known = self.discovery.get_service_urls(opts.service);
        let service = opts.service;
        let base_url = match &known {
            Some(urls) => if urls.len() > 0 {
                urls[0].clone()
            } else {
                String::new()
            },
            None => String::new(),
        };
        let located = match &known {
            Some(urls) => urls.len() > 0,
            None => false,
        };
        let listed = known.is_some();
        match normal {
            Err(e) => {
                let job = FetchJob {
                    service,
                    caller,
                    phase: Phase::Finished,
                    retried: false,
                    base_url,
                    path: opts.url,
                    method: opts.method,
                    headers: opts.headers,
                    query: opts.query,
                    body: opts.body,
                };
                let e = FetchError { message: e.message, url: job.url() };
                Progress { job, step: FetchStep::Done(Err(e)), released: None }
            },
            Ok(headers) => {
                let job = FetchJob {
                    service,
                    caller,
                    phase: Phase::Resolving,
                    retried: false,
                    base_url,
                    path: opts.url,
                    method: opts.method,
                    headers,
                    query: opts.query,
                    body: opts.body,
                };
                if located {
                    self.seek(job)
                } else if listed || service == ServiceType::Directory {
                    let e = no_address(job.path.clone());
                    finish(job, Err(e))
                } else {
                    let ask = self.discovery.find_service_urls(service, &self.directory_interface);
                    Progress { job, step: FetchStep::Resolve(ask), released: None }
                }
            },
        }
    }

    /// Starts a request on its way through the pipeline on behalf of
    /// `caller`, and says what to do first: the headers are normalised, and
    /// the request is started with the outcome, as [`ServiceClient::start`]
    /// starts it. Normalisation succeeds, and so the request takes its
    /// first step, whenever its headers leave room for two more names.
    pub fn fetch(&mut self, opts: FetchOpts, caller: u64) -> (p: Progress)
        ensures
            Self::begins(*old(self), *final(self), opts, caller, p),
    {
        let mut url = self.base_of(opts.service);
        url.append(opts.url.as_str());
        let normal = check_correct_headers(&opts.headers, &opts.body, &url);
        let ghost outcome = normal;
        let ghost base = base_text(self.discovery.known(opts.service));
        let p = self.start(opts, normal, caller);
        assert(Self::normal_fits(opts, base, outcome));
        assert(Self::starts(*old(self), *self, opts, outcome, caller, p));
        p
    }

    /// Takes the request one step further on `event`, and says what to do
    /// next.
    ///
    /// The course is that of [`next`]. Beyond it: a resolution is noted by
    /// discovery; a completed token acquisition is noted by the token cache,
    /// and the callers that waited for it are handed back with the outcome
    /// they are to receive; an answered request ends with exactly the
    /// response that was reported; and a failed one ends with the error
    /// that [`FetchJob::failure`] describes.
    pub fn advance(&mut self, job: FetchJob, event: FetchEvent) -> (p: Progress)
        ensures
            ({
                let slot = old(self).tokens.slot(job.service);
                let known = old(self).discovery.known(job.service);
                let resolving = job.phase == Phase::Resolving && event is Resolved;
                let acquiring = job.phase == Phase::Acquiring && event is TokenReply;
                &&& (final(self).tokens.slot(job.service), p.job.model(), p.step.model()) == next(
                    slot,
                    job.model(),
                    job.caller,
                    job.event_model(event, known),
                )
                &&& final(self).discovery.known(job.service) == if resolving {
                    learn(known, answer_view(event->Resolved_0))
                } else {
                    known
                }
                &&& p.job.base_url@ == if resolving && first_address(
                    final(self).discovery.known(job.service),
                ) is Some {
                    first_address(final(self).discovery.known(job.service)).unwrap()
                } else {
                    job.base_url@
                }
                &&& match p.step {
                    FetchStep::Resolve(_) => false,
                    FetchStep::AcquireToken(r) => {
                        &&& r.url@ == token_url_text(p.job.base_url@)
                        &&& r.username@ == old(self).service_creds.username_text()
                        &&& r.password@ == old(self).service_creds.password_text()
                    },
                    FetchStep::Done(Ok(response)) => event == FetchEvent::Reply(
                        HttpReply::Answered(response),
                    ),
                    FetchStep::Done(Err(e)) => e@ == job.failure(event, known),
                    _ => true,
                }
                &&& match p.released {
                    Some(released) => {
                        &&& acquiring
                        &&& released.waiters@ == complete(
                            slot,
                            token_result(event->TokenReply_0, token_url_text(job.base_url@)),
                        ).1
                        &&& outcome_view(released.outcome) == token_result(
                            event->TokenReply_0,
                            token_url_text(job.base_url@),
                        )
                    },
                    None => !acquiring,
                }
            }),
            final(self).tokens.same_elsewhere(&old(self).tokens, job.service),
            final(self).discovery.same_elsewhere(&old(self).discovery, job.service),
            final(self).same_but_url(old(self), job.service),
            final(self).interface_url(job.service) == if job.phase == Phase::Resolving
                && event is Resolved {
                old(self).address_after(job.service, final(self).discovery.known(job.service))
            } else {
                old(self).interface_url(job.service)
            },
            p.job.carries(job),
    {
        let mut job = job;
        match job.phase {
            Phase::Resolving => match event {
                FetchEvent::Resolved(found) => {
                    match self.discovery.resolve(job.service, found) {
                        Ok(Some(urls)) => {
                            if urls.len() > 0 {
                                job.base_url = urls[0].clone();
                                self.note_address(job.service, &job.base_url);
                                let ghost noted = *self;
                                let p = self.seek(job);
                                assert(self.same_but_url(old(self), p.job.service)) by {
                                    assert(self.same_setup(&noted));
                                    assert(noted.same_but_url(old(self), p.job.service));
                                }
                                p
                            } else {
                                let e = no_address(job.path.clone());
                                finish(job, Err(e))
                            }
                        },
                        Ok(None) => {
                            let e = no_address(job.path.clone());
                            finish(job, Err(e))
                        },
                        Err(e) => finish(job, Err(e)),
                    }
                },
                _ => self.misfit(job),
            },
            Phase::Acquiring => match event {
                FetchEvent::TokenReply(reply) => {
                    let mut token_url = job.base_url.clone();
                    token_url.append("/token");
                    let outcome = token_outcome(reply, token_url);
                    match &outcome {
                        Ok(token) => {
                            let bearer = token.token.clone();
                            let released = self.tokens.complete(job.service, outcome);
                            job.phase = Phase::Sending;
                            Progress {
                                job,
                                step: FetchStep::Send { bearer },
                                released: Some(released),
                            }
                        },
                        Err(e) => {
                            let e = e.clone();
                            let released = self.tokens.complete(job.service, outcome);
                            job.phase = Phase::Finished;
                            Progress {
                                job,
                                step: FetchStep::Done(Err(e)),
                                released: Some(released),
                            }
                        },
                    }
                },
                _ => self.misfit(job),
            },
            Phase::Waiting => match event {
                FetchEvent::TokenShared(outcome) => match outcome {
                    Ok(token) => {
                        job.phase = Phase::Sending;
                        Progress {
                            job,
                            step: FetchStep::Send { bearer: token.token },
                            released: None,
                        }
                    },
                    Err(e) => finish(job, Err(e)),
                },
                _ => self.misfit(job),
            },
            Phase::Sending => match event {
                FetchEvent::Reply(reply) => match reply {
                    HttpReply::Answered(response) => {
                        if response.status == 401 && !job.retried {
                            self.tokens.invalidate(job.service);
                            job.retried = true;
                            self.seek(job)
                        } else {
                            finish(job, Ok(response))
                        }
                    },
                    HttpReply::NotBuilt => {
                        let e = FetchError {
                            message: String::from_str("Couldn't build a request to fetch."),
                            url: job.url(),
                        };
                        finish(job, Err(e))
                    },
                    HttpReply::NotSent => {
                        let e = FetchError {
                            message: String::from_str("Couldn't make request."),
                            url: job.url(),
                        };
                        finish(job, Err(e))
                    },
                    HttpReply::Unreadable => {
                        let e = FetchError {
                            message: String::from_str("Couldn't decode response body."),
                            url: job.url(),
                        };
                        finish(job, Err(e))
                    },
                },
                _ => self.misfit(job),
            },
            Phase::Finished => self.misfit(job),
        }
    }

    fn misfit(&self, job: FetchJob) -> (p: Progress)
        ensures
            p.job == (FetchJob { phase: Phase::Finished, ..job }),
            p.step matches FetchStep::Done(Err(e)) && e.message@ == misfit_text() && e.url@
                == job.url_text(),
            p.released is None,
    {
        let e = FetchError {
            message: String::from_str("The request was not waiting for this event."),
            url: job.url(),
        };
        finish(job, Err(e))
    }

    /// True when `opts` is the request that pings `service`: a `GET` of
    /// `/ping` without headers, query or body.
    pub open spec fn pings(opts: FetchOpts, service: ServiceType) -> bool {
        &&& opts.url@ == ping_path()
        &&& opts.service == service
        &&& opts.method == HttpRequestMethod::GET
        &&& holds_nothing(opts.headers)
        &&& opts.query is None
        &&& opts.body is None
    }

    /// The request that pings `service`: a `GET` of `/ping` without
    /// headers, query or body.
    pub fn ping_request(service: ServiceType) -> (o: FetchOpts)
        ensures
            Self::pings(o, service),
    {
        FetchOpts {
            url: String::from_str("/ping"),
            service,
            method: HttpRequestMethod::GET,
            headers: new_headers(),
            query: None,
            body: None,
        }
    }

    /// Starts a ping of `service`: the request of
    /// [`ServiceClient::ping_request`], with `Accept: application/json` as
    /// its one header, started as [`ServiceClient::start`] starts a request
    /// whose headers have been normalised. As a side effect this acquires
    /// the service's token if none is held.
    pub fn ping(&mut self, service: ServiceType, caller: u64) -> (p: Progress)
        ensures
            exists|opts: FetchOpts, headers: http::HeaderMap|
                {
                    &&& Self::pings(opts, service)
                    &&& header_fields(headers) == normalized(no_fields(), false)
                    &&& #[trigger] Self::starts(
                        *old(self),
                        *final(self),
                        opts,
                        Ok(headers),
                        caller,
                        p,
                    )
                },
    {
        let fetch_opts = Self::ping_request(service);
        let ghost asked = fetch_opts;
        let p = self.fetch(fetch_opts, caller);
        proof {
            let normal = choose|normal: Result<http::HeaderMap, FetchError>|
                Self::normal_fits(asked, base_text(old(self).discovery.known(service)), normal)
                    && #[trigger] Self::starts(*old(self), *self, asked, normal, caller, p);
            assert(normal is Ok);
            assert(Self::starts(*old(self), *self, asked, Ok(normal->Ok_0), caller, p));
        }
        p
    }

    /// The result of a ping, from the result of its request.
    pub fn ping_result(result: Result<FetchResponse, FetchError>) -> (r: Result<
        PingResponse,
        FetchError,
    >)
        ensures
            match result {
                Ok(response) => r == Ok::<PingResponse, FetchError>(
                    PingResponse { status: response.status, content: Some(response.content) },
                ),
                Err(e) => r == Err::<PingResponse, FetchError>(e),
            },
    {
        match result {
            Ok(response) => Ok(PingResponse::from(response.status, response.content)),
            Err(e) => Err(e),
        }
    }

    /// What holds when `caller` has asked for the token of `service` whose
    /// entry stood at `slot`: `step` is what the caller is told, `before`
    /// and `after` are the client before and after.
    ///
    /// A held token is handed out at once and the entry stays as it was,
    /// whatever is known of the service's address. Without a held token, a
    /// service without a known address has nothing to offer. Otherwise the
    /// caller waits for the acquisition under way, or becomes the owner of a
    /// new one, to be made at `<address>/token` with the shared credentials.
    pub open spec fn serves(
        before: ServiceClient,
        after: ServiceClient,
        slot: SlotView,
        service: ServiceType,
        caller: u64,
        step: TokenStep,
    ) -> bool {
        match slot {
            SlotView::Cached(token) => {
                &&& step matches TokenStep::Use(held) && held@ == token
                &&& after.tokens.slot(service) == slot
            },
            _ => match first_address(before.discovery.known(service)) {
                Some(url) => {
                    &&& after.tokens.slot(service) == request(slot, caller).0
                    &&& match step {
                        TokenStep::Await => slot is Acquiring,
                        TokenStep::Acquire(r) => {
                            &&& slot is Absent
                            &&& r.url@ == token_url_text(url)
                            &&& r.username@ == before.service_creds.username_text()
                            &&& r.password@ == before.service_creds.password_text()
                        },
                        _ => false,
                    }
                },
                None => step is Nowhere && after.tokens.slot(service) == slot,
            },
        }
    }

    fn token_step(&mut self, service: ServiceType, caller: u64) -> (step: TokenStep)
        ensures
            Self::serves(
                *old(self),
                *final(self),
                old(self).tokens.slot(service),
                service,
                caller,
                step,
            ),
            final(self).tokens.same_elsewhere(&old(self).tokens, service),
            final(self).discovery == old(self).discovery,
            final(self).same_setup(old(self)),
    {
        match self.tokens.cached(service) {
            Some(token) => {
                return TokenStep::Use(token);
            },
            None => {},
        }
        let known = self.discovery.get_service_urls(service);
        match known {
            Some(urls) => {
                if urls.len() > 0 {
                    match self.tokens.get_token(service, caller) {
                        TokenDecision::Hit(token) => TokenStep::Use(token),
                        TokenDecision::Wait => TokenStep::Await,
                        TokenDecision::Acquire => TokenStep::Acquire(
                            get_new_token(
                                urls[0].as_str(),
                                self.service_creds.username(),
                                self.service_creds.password(),
                            ),
                        ),
                    }
                } else {
                    TokenStep::Nowhere
                }
            },
            None => TokenStep::Nowhere,
        }
    }

    /// Asks for the token of `service` on behalf of `caller`.
    ///
    /// A held token is used at once, whatever its expiry says. Without one,
    /// an acquisition under way is waited for, or the caller is to acquire
    /// the token at `<address>/token` with the shared credentials; a service
    /// without a known address has no token to ask for.
    pub fn get_service_token(&mut self, service: ServiceType, caller: u64) -> (step: TokenStep)
        ensures
            Self::serves(
                *old(self),
                *final(self),
                old(self).tokens.slot(service),
                service,
                caller,
                step,
            ),
            final(self).tokens.same_elsewhere(&old(self).tokens, service),
            final(self).discovery == old(self).discovery,
            final(self).same_setup(old(self)),
    {
        self.token_step(service, caller)
    }

    /// Discards the token held for `service` and asks for a new one on
    /// behalf of `caller`. A token that was held is never used again: the
    /// caller is to acquire a fresh one, or to wait for the acquisition
    /// that is already under way.
    pub fn re_auth_service(&mut self, service: ServiceType, caller: u64) -> (step: TokenStep)
        ensures
            Self::serves(
                *old(self),
                *final(self),
                invalidate(old(self).tokens.slot(service)),
                service,
                caller,
                step,
            ),
            !(step is Use),
            final(self).tokens.same_elsewhere(&old(self).tokens, service),
            final(self).discovery == old(self).discovery,
            final(self).same_setup(old(self)),
    {
        self.tokens.invalidate(service);
        self.token_step(service, caller)
    }

    /// Reports the reply to a token request that a caller was told to
    /// carry out for `service` at `token_url`, and hands back the callers
    /// that waited for it together with the outcome they are to receive.
    pub fn token_acquired(&mut self, service: ServiceType, token_url: String, reply: TokenReply) -> (r:
        Released)
        ensures
            (final(self).tokens.slot(service), r.waiters@) == complete(
                old(self).tokens.slot(service),
                token_result(reply, token_url@),
            ),
            outcome_view(r.outcome) == token_result(reply, token_url@),
            final(self).tokens.same_elsewhere(&old(self).tokens, service),
            final(self).discovery == old(self).discovery,
            final(self).same_setup(old(self)),
    {
        let outcome = token_outcome(reply, token_url);
        self.tokens.complete(service, outcome)
    }

    /// Takes note of the directory's answer about `service` and returns
    /// the addresses to use. What is learnt is kept, so that the directory
    /// is asked at most once for each service, and the service's interface
    /// holds the first of the addresses from then on.
    pub fn resolve(&mut self, service: ServiceType, found: Result<Option<Vec<String>>, FetchError>) -> (r:
        Result<Option<Vec<String>>, FetchError>)
        ensures
            final(self).discovery.known(service) == learn(
                old(self).discovery.known(service),
                answer_view(found),
            ),
            final(self).discovery.same_elsewhere(&old(self).discovery, service),
            final(self).tokens == old(self).tokens,
            final(self).same_but_url(old(self), service),
            final(self).interface_url(service) == old(self).address_after(
                service,
                final(self).discovery.known(service),
            ),
            match r {
                Ok(urls) => list_view(urls) == final(self).discovery.known(service) && !(old(
                    self,
                ).discovery.known(service) is None && found is Err),
                Err(e) => old(self).discovery.known(service) is None && found == Err::<
                    Option<Vec<String>>,
                    FetchError,
                >(e),
            },
    {
        let r = self.discovery.resolve(service, found);
        match &r {
            Ok(Some(urls)) => {
                if urls.len() > 0 {
                    self.note_address(service, &urls[0]);
                }
            },
            _ => {},
        }
        r
    }
}

} // verus!
