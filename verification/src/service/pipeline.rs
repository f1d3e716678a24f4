//! The request pipeline, as a state machine.
//!
//! A request to a service passes through a fixed course: the service's
//! address is resolved, a bearer token is obtained, the request is sent, and
//! if the service rejects the token the token is discarded and the request
//! is sent once more with a fresh one. Nothing here touches the network:
//! each step tells the driver what to do next, and the driver reports back
//! with an event.

use crate::error::{FetchError, FetchErrorView};
use crate::service::discovery::{answer_view, learn};
use crate::service::fetch_util::{
    token_error_text, token_url_text, TokenBody, TokenReply, TokenRequest,
};
use crate::service::headers::header_fields;
use crate::service::request::{FetchOpts, HttpRequestMethod};
use crate::service::response::{FetchResponse, TokenStruct, TokenView};
use crate::service::tokens::{
    complete, invalidate, outcome_view, request, DecisionView, Released, SlotView,
};
use crate::service::ServiceType;
use vstd::prelude::*;
use vstd::string::StringExecFns;

verus! {

/// Where a request stands.
#[derive(Clone, Copy, PartialEq, Eq, Debug, Structural)]
pub enum Phase {
    /// The directory has been asked for the service's address.
    Resolving,
    /// This request is acquiring the service's token.
    Acquiring,
    /// Another request is acquiring the token; this one waits for it.
    Waiting,
    /// The request is on its way.
    Sending,
    /// The request has been answered or has failed.
    Finished,
}

/// A request on its way through the pipeline.
#[derive(Debug)]
pub struct FetchJob {
    /// The service that is asked.
    pub service: ServiceType,
    /// The number by which the token cache knows this request.
    pub caller: u64,
    pub phase: Phase,
    /// True once the request has been sent again after a rejected token.
    pub retried: bool,
    /// The address of the service, empty until it has been resolved.
    pub base_url: String,
    /// The path below that address.
    pub path: String,
    pub method: HttpRequestMethod,
    /// The headers with which the request goes out.
    pub headers: http::HeaderMap,
    pub query: Option<Vec<(String, String)>>,
    pub body: Option<String>,
}

/// What became of a request that was handed to the transport.
#[derive(Debug)]
pub enum HttpReply {
    /// The request could not be put together.
    NotBuilt,
    /// The request could not be delivered.
    NotSent,
    /// The service answered, but the body could not be read.
    Unreadable,
    /// The service answered.
    Answered(FetchResponse),
}

/// What the driver reports back.
#[derive(Debug)]
pub enum FetchEvent {
    /// The directory was asked for the service's address; this is what it
    /// offered.
    Resolved(Result<Option<Vec<String>>, FetchError>),
    /// The token request of this request was carried out.
    TokenReply(TokenReply),
    /// The acquisition that this request waited for has completed.
    TokenShared(Result<TokenStruct, FetchError>),
    /// The request itself was carried out.
    Reply(HttpReply),
}

/// What the driver is to do next.
#[derive(Debug)]
pub enum FetchStep {
    /// Send this request to the directory and report what it offers.
    Resolve(FetchOpts),
    /// Carry out this token request and report the reply.
    AcquireToken(TokenRequest),
    /// Wait until the acquisition under way completes and report its outcome.
    AwaitToken,
    /// Send the request with this bearer credential and report the reply.
    Send { bearer: String },
    /// Nothing more: this is the result.
    Done(Result<FetchResponse, FetchError>),
}

/// The state of a request after a step, what to do next, and the callers
/// released if the step completed a token acquisition.
#[derive(Debug)]
pub struct Progress {
    pub job: FetchJob,
    pub step: FetchStep,
    pub released: Option<Released>,
}

/// The first of the addresses known for a service, if any is known.
pub open spec fn first_address(known: Option<Seq<Seq<char>>>) -> Option<Seq<char>> {
    match known {
        Some(urls) => if urls.len() > 0 {
            Some(urls[0])
        } else {
            None
        },
        None => None,
    }
}

/// The address below which a request to a service goes: the first of the
/// addresses known for it, or nothing while none is known.
pub open spec fn base_text(known: Option<Seq<Seq<char>>>) -> Seq<char> {
    match first_address(known) {
        Some(url) => url,
        None => Seq::empty(),
    }
}

/// The meaning of a token reply for the request at `token_url`: the token,
/// exactly when the service answered 200 with one, else the error that
/// names what went wrong.
pub open spec fn token_result(reply: TokenReply, token_url: Seq<char>) -> Result<
    TokenView,
    FetchErrorView,
> {
    match reply {
        TokenReply::Answered { status, body: TokenBody::Decoded(token) } => if status == 200 {
            Ok(token@)
        } else {
            Err(FetchErrorView { message: token_error_text(reply), url: token_url })
        },
        _ => Err(FetchErrorView { message: token_error_text(reply), url: token_url }),
    }
}

/// The message for each way in which the transport can fail.
pub open spec fn reply_error_text(reply: HttpReply) -> Seq<char> {
    match reply {
        HttpReply::NotBuilt => "Couldn't build a request to fetch."@,
        HttpReply::NotSent => "Couldn't make request."@,
        _ => "Couldn't decode response body."@,
    }
}

/// The message of the error returned when a service has no address.
pub open spec fn no_address_text() -> Seq<char> {
    "No address is known for the service."@
}

/// The error for a request to a service that has no address; `url` is what
/// was asked for.
pub fn no_address(url: String) -> (e: FetchError)
    ensures
        e.message@ == no_address_text(),
        e.url == url,
{
    FetchError { message: String::from_str("No address is known for the service."), url }
}

/// The message of the error returned when an event arrives that the request
/// was not waiting for.
pub open spec fn misfit_text() -> Seq<char> {
    "The request was not waiting for this event."@
}

impl FetchJob {
    /// The part of the state that decides the course of the request.
    pub open spec fn model(self) -> JobModel {
        JobModel { phase: self.phase, retried: self.retried }
    }

    /// The full address of the request.
    pub open spec fn url_text(self) -> Seq<char> {
        self.base_url@ + self.path@
    }

    /// True when both are the same request by the same caller.
    pub open spec fn carries(self, other: FetchJob) -> bool {
        &&& self.service == other.service
        &&& self.caller == other.caller
        &&& self.path == other.path
        &&& self.method == other.method
        &&& header_fields(self.headers) == header_fields(other.headers)
        &&& self.query == other.query
        &&& self.body == other.body
    }

    /// True when the event is one that a request in this phase waits for.
    pub open spec fn awaits(self, event: FetchEvent) -> bool {
        match self.phase {
            Phase::Resolving => event is Resolved,
            Phase::Acquiring => event is TokenReply,
            Phase::Waiting => event is TokenShared,
            Phase::Sending => event is Reply,
            Phase::Finished => false,
        }
    }

    /// The event, reduced to what decides the course of this request.
    /// `known` is what discovery knew of the service before the event.
    pub open spec fn event_model(self, event: FetchEvent, known: Option<Seq<Seq<char>>>) -> EventModel {
        match event {
            FetchEvent::Resolved(found) => EventModel::Resolved(
                first_address(learn(known, answer_view(found))) is Some,
            ),
            FetchEvent::TokenReply(reply) => EventModel::TokenReply(
                token_result(reply, token_url_text(self.base_url@)),
            ),
            FetchEvent::TokenShared(outcome) => EventModel::TokenShared(outcome_view(outcome)),
            FetchEvent::Reply(reply) => EventModel::Reply(
                match reply {
                    HttpReply::Answered(response) => Some(response.status),
                    _ => None,
                },
            ),
        }
    }

    /// The error with which this request fails on `event`.
    ///
    /// A failure of the directory, of the token request, or of the
    /// acquisition that was waited for is passed on as it is. A service
    /// without an address, a failure of the transport, and an event that
    /// was not waited for each have a message of their own.
    pub open spec fn failure(self, event: FetchEvent, known: Option<Seq<Seq<char>>>) -> FetchErrorView {
        if !self.awaits(event) {
            FetchErrorView { message: misfit_text(), url: self.url_text() }
        } else {
            match event {
                FetchEvent::Resolved(found) => match found {
                    Err(e) => if known is None {
                        e@
                    } else {
                        FetchErrorView { message: no_address_text(), url: self.path@ }
                    },
                    Ok(_) => FetchErrorView { message: no_address_text(), url: self.path@ },
                },
                FetchEvent::TokenReply(reply) => FetchErrorView {
                    message: token_error_text(reply),
                    url: token_url_text(self.base_url@),
                },
                FetchEvent::TokenShared(outcome) => match outcome {
                    Err(e) => e@,
                    Ok(_) => FetchErrorView { message: misfit_text(), url: self.url_text() },
                },
                FetchEvent::Reply(reply) => FetchErrorView {
                    message: reply_error_text(reply),
                    url: self.url_text(),
                },
            }
        }
    }

    /// The full address of the request.
    pub fn url(&self) -> (s: String)
        ensures
            s@ == self.url_text(),
    {
        let mut s = self.base_url.clone();
        s.append(self.path.as_str());
        s
    }
}

impl FetchStep {
    /// The step, reduced to its kind and the credential or status it
    /// carries.
    pub open spec fn model(self) -> StepModel {
        match self {
            FetchStep::Resolve(_) => StepModel::Resolve,
            FetchStep::AcquireToken(_) => StepModel::Acquire,
            FetchStep::AwaitToken => StepModel::Await,
            FetchStep::Send { bearer } => StepModel::Send(bearer@),
            FetchStep::Done(Ok(response)) => StepModel::Answered(response.status),
            FetchStep::Done(Err(_)) => StepModel::Failed,
        }
    }
}

/// How a request to `service` starts when its headers have been normalised
/// and discovery knows `known` of the service.
pub open spec fn start_of(known: Option<Seq<Seq<char>>>, service: ServiceType) -> Start {
    if first_address(known) is Some {
        Start::Known
    } else if known is Some || service == ServiceType::Directory {
        Start::Nowhere
    } else {
        Start::Unknown
    }
}

/// The part of a request's state that decides its course.
pub ghost struct JobModel {
    pub phase: Phase,
    pub retried: bool,
}

/// An event, reduced to what decides the course of a request.
pub ghost enum EventModel {
    /// The service's address was looked up; true if there is one now.
    Resolved(bool),
    TokenReply(Result<TokenView, FetchErrorView>),
    TokenShared(Result<TokenView, FetchErrorView>),
    /// The status with which the service answered, or `None` if the
    /// transport failed.
    Reply(Option<u16>),
}

/// A step, reduced to its kind and the credential or status it carries.
pub ghost enum StepModel {
    Resolve,
    Acquire,
    Await,
    Send(Seq<char>),
    Answered(u16),
    Failed,
}

/// A request turns to the token cache.
pub open spec fn seek_token(slot: SlotView, caller: u64, retried: bool) -> (
    SlotView,
    JobModel,
    StepModel,
) {
    let (after, decision) = request(slot, caller);
    match decision {
        DecisionView::Hit(token) => (
            after,
            JobModel { phase: Phase::Sending, retried },
            StepModel::Send(token.token),
        ),
        DecisionView::Wait => (after, JobModel { phase: Phase::Waiting, retried }, StepModel::Await),
        DecisionView::Acquire => (
            after,
            JobModel { phase: Phase::Acquiring, retried },
            StepModel::Acquire,
        ),
    }
}

/// How a request starts.
pub ghost enum Start {
    /// The headers could not be normalised.
    Refused,
    /// The service's address is known.
    Known,
    /// The service is known to have no address, or it is the directory
    /// itself that is unknown.
    Nowhere,
    /// The service's address has to be asked of the directory.
    Unknown,
}

/// The first step of a request.
pub open spec fn begin(slot: SlotView, caller: u64, start: Start) -> (SlotView, JobModel, StepModel) {
    match start {
        Start::Known => seek_token(slot, caller, false),
        Start::Unknown => (
            slot,
            JobModel { phase: Phase::Resolving, retried: false },
            StepModel::Resolve,
        ),
        _ => (slot, JobModel { phase: Phase::Finished, retried: false }, StepModel::Failed),
    }
}

/// A request that has ended in failure.
pub open spec fn failed(slot: SlotView, job: JobModel) -> (SlotView, JobModel, StepModel) {
    (slot, JobModel { phase: Phase::Finished, ..job }, StepModel::Failed)
}

/// The step that follows an event.
///
/// * After resolution the request turns to the token cache, or fails if the
///   service has no address.
/// * The owner of an acquisition completes it in the cache; owner and
///   waiters alike go on to send with the token, or fail with the error.
/// * A reply with status 401 to a request that has not been retried
///   discards the token and turns to the cache once more. Every other reply,
///   a second 401 among them, ends the request with that reply.
/// * A transport failure, or an event that the request was not waiting
///   for, ends the request in failure.
pub open spec fn next(slot: SlotView, job: JobModel, caller: u64, event: EventModel) -> (
    SlotView,
    JobModel,
    StepModel,
) {
    match (job.phase, event) {
        (Phase::Resolving, EventModel::Resolved(true)) => seek_token(slot, caller, job.retried),
        (Phase::Acquiring, EventModel::TokenReply(Ok(token))) => (
            complete(slot, Ok(token)).0,
            JobModel { phase: Phase::Sending, ..job },
            StepModel::Send(token.token),
        ),
        (Phase::Acquiring, EventModel::TokenReply(Err(e))) => failed(
            complete(slot, Err(e)).0,
            job,
        ),
        (Phase::Waiting, EventModel::TokenShared(Ok(token))) => (
            slot,
            JobModel { phase: Phase::Sending, ..job },
            StepModel::Send(token.token),
        ),
        (Phase::Sending, EventModel::Reply(Some(status))) => if status == 401 && !job.retried {
            seek_token(invalidate(slot), caller, true)
        } else {
            (slot, JobModel { phase: Phase::Finished, ..job }, StepModel::Answered(status))
        },
        _ => failed(slot, job),
    }
}

/// The steps that a run of events brings about, in order.
pub open spec fn steps(slot: SlotView, job: JobModel, caller: u64, events: Seq<EventModel>) -> Seq<
    StepModel,
>
    decreases events.len(),
{
    if events.len() == 0 {
        Seq::empty()
    } else {
        let (slot1, job1, step) = next(slot, job, caller, events[0]);
        seq![step] + steps(slot1, job1, caller, events.skip(1))
    }
}

/// How many of `steps` acquire a token.
pub open spec fn acquisitions(steps: Seq<StepModel>) -> nat
    decreases steps.len(),
{
    if steps.len() == 0 {
        0
    } else {
        acquisitions(steps.drop_first()) + if steps[0] is Acquire {
            1nat
        } else {
            0nat
        }
    }
}

/// How many of `steps` send the request.
pub open spec fn sendings(steps: Seq<StepModel>) -> nat
    decreases steps.len(),
{
    if steps.len() == 0 {
        0
    } else {
        sendings(steps.drop_first()) + if steps[0] is Send {
            1nat
        } else {
            0nat
        }
    }
}

/// How many more times a request in this state can be sent.
pub open spec fn sendings_left(job: JobModel) -> nat {
    match job.phase {
        Phase::Finished => 0,
        Phase::Sending => if job.retried {
            0
        } else {
            1
        },
        _ => if job.retried {
            1
        } else {
            2
        },
    }
}

/// How many more times a request in this state can be told to acquire.
pub open spec fn acquisitions_left(job: JobModel) -> nat {
    match job.phase {
        Phase::Finished => 0,
        Phase::Resolving => if job.retried {
            1
        } else {
            2
        },
        _ => if job.retried {
            0
        } else {
            1
        },
    }
}

/// Whatever events arrive, a request is sent and told to acquire no more
/// often than its state allows.
pub proof fn lemma_bounded(slot: SlotView, job: JobModel, caller: u64, events: Seq<EventModel>)
    ensures
        sendings(steps(slot, job, caller, events)) <= sendings_left(job),
        acquisitions(steps(slot, job, caller, events)) <= acquisitions_left(job),
    decreases events.len(),
{
    if events.len() > 0 {
        let (slot1, job1, step) = next(slot, job, caller, events[0]);
        let rest = steps(slot1, job1, caller, events.skip(1));
        lemma_bounded(slot1, job1, caller, events.skip(1));
        let all = seq![step] + rest;
        assert(all.drop_first() =~= rest);
        assert(all[0] == step);
    }
}

/// No unbounded retry: from its first step on, whatever events arrive, a
/// request is sent at most twice and acquires a token at most twice.
pub proof fn law_bounded_attempts(
    slot: SlotView,
    caller: u64,
    start: Start,
    events: Seq<EventModel>,
)
    ensures
        ({
            let (slot1, job1, first) = begin(slot, caller, start);
            let all = seq![first] + steps(slot1, job1, caller, events);
            sendings(all) <= 2 && acquisitions(all) <= 2
        }),
{
    let (slot1, job1, first) = begin(slot, caller, start);
    let rest = steps(slot1, job1, caller, events);
    lemma_bounded(slot1, job1, caller, events);
    let all = seq![first] + rest;
    assert(all.drop_first() =~= rest);
    assert(all[0] == first);
}

/// Retry once: a request whose token is rejected, and rejected again on the
/// retry, acquires a token exactly twice, is sent exactly twice, and ends
/// with the second rejection as its result.
pub proof fn law_retry_once(caller: u64, first: TokenView, second: TokenView)
    ensures
        ({
            let (slot1, job1, step1) = begin(SlotView::Absent, caller, Start::Known);
            let events = seq![
                EventModel::TokenReply(Ok(first)),
                EventModel::Reply(Some(401u16)),
                EventModel::TokenReply(Ok(second)),
                EventModel::Reply(Some(401u16)),
            ];
            &&& step1 == StepModel::Acquire
            &&& steps(slot1, job1, caller, events) == seq![
                StepModel::Send(first.token),
                StepModel::Acquire,
                StepModel::Send(second.token),
                StepModel::Answered(401u16),
            ]
        }),
{
    let (slot1, job1, step1) = begin(SlotView::Absent, caller, Start::Known);
    let e1 = EventModel::TokenReply(Ok(first));
    let e2 = EventModel::Reply(Some(401u16));
    let e3 = EventModel::TokenReply(Ok(second));
    let events = seq![e1, e2, e3, e2];
    let (slot2, job2, step2) = next(slot1, job1, caller, e1);
    let (slot3, job3, step3) = next(slot2, job2, caller, e2);
    let (slot4, job4, step4) = next(slot3, job3, caller, e3);
    let (slot5, job5, step5) = next(slot4, job4, caller, e2);
    assert(events.skip(1) =~= seq![e2, e3, e2]);
    assert(events.skip(1).skip(1) =~= seq![e3, e2]);
    assert(events.skip(1).skip(1).skip(1) =~= seq![e2]);
    assert(events.skip(1).skip(1).skip(1).skip(1) =~= Seq::<EventModel>::empty());
    reveal_with_fuel(steps, 6);
    assert(steps(slot1, job1, caller, events) =~= seq![step2, step3, step4, step5]);
}

} // verus!
