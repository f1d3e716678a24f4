//! The token cache: one bearer token per service, and at most one
//! acquisition under way for each.
//!
//! Per service the cache is a small state machine, `Absent → Acquiring →
//! Cached → Absent`. The first caller to miss becomes the owner of the
//! acquisition; callers that arrive while it is under way are queued and are
//! released, all with the owner's outcome, when it completes.

use crate::error::{FetchError, FetchErrorView};
use crate::service::response::{TokenStruct, TokenView};
use crate::service::ServiceType;
use vstd::prelude::*;

verus! {

/// The state of one service's entry.
pub ghost enum SlotView {
    /// No token is held and none is being acquired.
    Absent,
    /// One caller is acquiring a token; these callers wait for it.
    Acquiring(Seq<u64>),
    /// This token is held.
    Cached(TokenView),
}

/// What a caller that asks for a token is told to do.
pub ghost enum DecisionView {
    /// Use this token.
    Hit(TokenView),
    /// Wait for the acquisition that is under way.
    Wait,
    /// Acquire a token, then report the outcome.
    Acquire,
}

/// The outcome of an acquisition, as a mathematical value.
pub open spec fn outcome_view(outcome: Result<TokenStruct, FetchError>) -> Result<
    TokenView,
    FetchErrorView,
> {
    match outcome {
        Ok(t) => Ok(t@),
        Err(e) => Err(e@),
    }
}

/// A caller asks for a token.
///
/// A held token is handed out at once. While an acquisition is under way the
/// caller joins the queue. Otherwise the caller becomes the owner of a new
/// acquisition.
pub open spec fn request(slot: SlotView, caller: u64) -> (SlotView, DecisionView) {
    match slot {
        SlotView::Absent => (SlotView::Acquiring(Seq::empty()), DecisionView::Acquire),
        SlotView::Acquiring(waiters) => (SlotView::Acquiring(waiters.push(caller)), DecisionView::Wait),
        SlotView::Cached(token) => (slot, DecisionView::Hit(token)),
    }
}

/// An acquisition reports its outcome.
///
/// A token is stored. A failure ends the acquisition and leaves nothing
/// behind, but never evicts a token that is held. Either way every queued
/// caller is released.
pub open spec fn complete(slot: SlotView, outcome: Result<TokenView, FetchErrorView>) -> (
    SlotView,
    Seq<u64>,
) {
    let released = match slot {
        SlotView::Acquiring(waiters) => waiters,
        _ => Seq::empty(),
    };
    let next = match outcome {
        Ok(token) => SlotView::Cached(token),
        Err(_) => if slot is Cached {
            slot
        } else {
            SlotView::Absent
        },
    };
    (next, released)
}

/// A service rejected the token: it is discarded. An acquisition that is
/// under way is left alone, since what it brings has not been rejected.
pub open spec fn invalidate(slot: SlotView) -> SlotView {
    match slot {
        SlotView::Cached(_) => SlotView::Absent,
        _ => slot,
    }
}

/// One service's entry.
enum Slot {
    Absent,
    Acquiring(Vec<u64>),
    Cached(TokenStruct),
}

impl View for Slot {
    type V = SlotView;

    closed spec fn view(&self) -> SlotView {
        match self {
            Slot::Absent => SlotView::Absent,
            Slot::Acquiring(waiters) => SlotView::Acquiring(waiters@),
            Slot::Cached(token) => SlotView::Cached(token@),
        }
    }
}

/// What a caller that asks for a token is told to do.
#[derive(Debug)]
pub enum TokenDecision {
    /// Use this token.
    Hit(TokenStruct),
    /// Wait for the acquisition that is under way; its outcome will be shared.
    Wait,
    /// Acquire a token, then report the outcome with `complete`.
    Acquire,
}

impl View for TokenDecision {
    type V = DecisionView;

    open spec fn view(&self) -> DecisionView {
        match self {
            TokenDecision::Hit(token) => DecisionView::Hit(token@),
            TokenDecision::Wait => DecisionView::Wait,
            TokenDecision::Acquire => DecisionView::Acquire,
        }
    }
}

/// The callers to release when an acquisition completes, and the outcome
/// that each of them receives.
#[derive(Debug)]
pub struct Released {
    pub waiters: Vec<u64>,
    pub outcome: Result<TokenStruct, FetchError>,
}

/// One token per service, with at most one acquisition under way for each.
pub struct TokenCache {
    directory: Slot,
    config_db: Slot,
    authentication: Slot,
    mqtt: Slot,
    command_escalation: Slot,
}

impl TokenCache {
    /// The state of the entry of `service`.
    pub closed spec fn slot(&self, service: ServiceType) -> SlotView {
        match service {
            ServiceType::Directory => self.directory@,
            ServiceType::ConfigDb => self.config_db@,
            ServiceType::Authentication => self.authentication@,
            ServiceType::MQTT => self.mqtt@,
            ServiceType::CommandEscalation => self.command_escalation@,
        }
    }

    /// True when every entry but that of `service` is the same in both.
    pub open spec fn same_elsewhere(&self, other: &TokenCache, service: ServiceType) -> bool {
        forall|s: ServiceType| s != service ==> self.slot(s) == other.slot(s)
    }

    /// A cache that holds nothing.
    pub fn new() -> (c: Self)
        ensures
            forall|s: ServiceType| c.slot(s) == SlotView::Absent,
    {
        TokenCache {
            directory: Slot::Absent,
            config_db: Slot::Absent,
            authentication: Slot::Absent,
            mqtt: Slot::Absent,
            command_escalation: Slot::Absent,
        }
    }

    fn take(&mut self, service: ServiceType) -> (slot: Slot)
        ensures
            slot@ == old(self).slot(service),
            final(self).slot(service) == SlotView::Absent,
            final(self).same_elsewhere(old(self), service),
    {
        let mut slot = Slot::Absent;
        match service {
            ServiceType::Directory => std::mem::swap(&mut self.directory, &mut slot),
            ServiceType::ConfigDb => std::mem::swap(&mut self.config_db, &mut slot),
            ServiceType::Authentication => std::mem::swap(&mut self.authentication, &mut slot),
            ServiceType::MQTT => std::mem::swap(&mut self.mqtt, &mut slot),
            ServiceType::CommandEscalation => std::mem::swap(
                &mut self.command_escalation,
                &mut slot,
            ),
        }
        slot
    }

    fn put(&mut self, service: ServiceType, slot: Slot)
        ensures
            final(self).slot(service) == slot@,
            final(self).same_elsewhere(old(self), service),
    {
        match service {
            ServiceType::Directory => self.directory = slot,
            ServiceType::ConfigDb => self.config_db = slot,
            ServiceType::Authentication => self.authentication = slot,
            ServiceType::MQTT => self.mqtt = slot,
            ServiceType::CommandEscalation => self.command_escalation = slot,
        }
    }

    /// Asks for the token of `service` on behalf of `caller`.
    ///
    /// A held token is returned at once. If an acquisition is under way the
    /// caller is queued and told to wait. Otherwise the caller is told to
    /// acquire, and from then on owns the one acquisition for this service.
    pub fn get_token(&mut self, service: ServiceType, caller: u64) -> (d: TokenDecision)
        ensures
            (final(self).slot(service), d@) == request(old(self).slot(service), caller),
            final(self).same_elsewhere(old(self), service),
    {
        let slot = self.take(service);
        match slot {
            Slot::Absent => {
                self.put(service, Slot::Acquiring(Vec::new()));
                TokenDecision::Acquire
            },
            Slot::Acquiring(mut waiters) => {
                waiters.push(caller);
                self.put(service, Slot::Acquiring(waiters));
                TokenDecision::Wait
            },
            Slot::Cached(token) => {
                let copy = token.clone();
                self.put(service, Slot::Cached(token));
                TokenDecision::Hit(copy)
            },
        }
    }

    /// Reports the outcome of an acquisition for `service`.
    ///
    /// A token is stored; a failure leaves the entry empty unless a token is
    /// held. The callers that were queued are handed back together with the
    /// outcome that each of them is to receive.
    pub fn complete(&mut self, service: ServiceType, outcome: Result<TokenStruct, FetchError>) -> (r:
        Released)
        ensures
            (final(self).slot(service), r.waiters@) == complete(
                old(self).slot(service),
                outcome_view(outcome),
            ),
            r.outcome == outcome,
            final(self).same_elsewhere(old(self), service),
    {
        let slot = self.take(service);
        let waiters = match slot {
            Slot::Acquiring(waiters) => waiters,
            Slot::Cached(token) => {
                if outcome.is_err() {
                    self.put(service, Slot::Cached(token));
                }
                Vec::new()
            },
            Slot::Absent => Vec::new(),
        };
        match &outcome {
            Ok(token) => {
                let copy = token.clone();
                self.put(service, Slot::Cached(copy));
            },
            Err(_) => {},
        }
        Released { waiters, outcome }
    }

    /// Discards the token held for `service`, if any. Calling it again
    /// changes nothing.
    pub fn invalidate(&mut self, service: ServiceType)
        ensures
            final(self).slot(service) == invalidate(old(self).slot(service)),
            final(self).same_elsewhere(old(self), service),
    {
        let slot = self.take(service);
        match slot {
            Slot::Cached(_) => {},
            other => {
                self.put(service, other);
            },
        }
    }

    /// The token held for `service`, if any.
    pub fn cached(&self, service: ServiceType) -> (r: Option<TokenStruct>)
        ensures
            match r {
                Some(token) => self.slot(service) == SlotView::Cached(token@),
                None => !(self.slot(service) is Cached),
            },
    {
        let slot = match service {
            ServiceType::Directory => &self.directory,
            ServiceType::ConfigDb => &self.config_db,
            ServiceType::Authentication => &self.authentication,
            ServiceType::MQTT => &self.mqtt,
            ServiceType::CommandEscalation => &self.command_escalation,
        };
        match slot {
            Slot::Cached(token) => Some(token.clone()),
            _ => None,
        }
    }
}

/// The entry after each of `callers` has asked in turn, and what each was
/// told.
pub open spec fn request_all(slot: SlotView, callers: Seq<u64>) -> (SlotView, Seq<DecisionView>)
    decreases callers.len(),
{
    if callers.len() == 0 {
        (slot, Seq::empty())
    } else {
        let (before, told) = request_all(slot, callers.drop_last());
        let (after, decision) = request(before, callers.last());
        (after, told.push(decision))
    }
}

/// Single flight: when any number of callers ask for a token that is absent,
/// exactly the first is told to acquire and all others are told to wait.
/// When the one acquisition completes, every one of those others is
/// released, whatever the outcome, and a token that was obtained is held.
pub proof fn law_single_flight(callers: Seq<u64>, outcome: Result<TokenView, FetchErrorView>)
    requires
        callers.len() >= 1,
    ensures
        ({
            let (slot, told) = request_all(SlotView::Absent, callers);
            let (settled, released) = complete(slot, outcome);
            &&& told.len() == callers.len()
            &&& told[0] == DecisionView::Acquire
            &&& forall|i: int| 1 <= i < told.len() ==> told[i] == DecisionView::Wait
            &&& slot == SlotView::Acquiring(callers.skip(1))
            &&& released == callers.skip(1)
            &&& outcome matches Ok(token) ==> settled == SlotView::Cached(token)
            &&& outcome is Err ==> settled == SlotView::Absent
        }),
    decreases callers.len(),
{
    if callers.len() == 1 {
        assert(callers.drop_last().len() == 0);
        assert(callers.skip(1) =~= Seq::<u64>::empty());
        let (slot, told) = request_all(SlotView::Absent, callers);
        assert(told =~= seq![DecisionView::Acquire]);
    } else {
        let front = callers.drop_last();
        law_single_flight(front, outcome);
        assert(callers.skip(1) =~= front.skip(1).push(callers.last()));
    }
}

/// A step in the life of one entry.
pub ghost enum CacheOp {
    /// A caller asks for the token.
    Request(u64),
    /// An acquisition reports its outcome.
    Complete(Result<TokenView, FetchErrorView>),
    /// A service rejected the token.
    Invalidate,
}

/// A tally kept along a run of operations on one entry.
pub ghost struct Tally {
    pub slot: SlotView,
    /// How many callers were told to acquire.
    pub started: nat,
    /// How many acquisitions under way were completed.
    pub finished: nat,
}

/// The tally after `ops` have been applied, in order, to an absent entry.
pub open spec fn run(ops: Seq<CacheOp>) -> Tally
    decreases ops.len(),
{
    if ops.len() == 0 {
        Tally { slot: SlotView::Absent, started: 0, finished: 0 }
    } else {
        let before = run(ops.drop_last());
        match ops.last() {
            CacheOp::Request(caller) => Tally {
                slot: request(before.slot, caller).0,
                started: before.started + if request(before.slot, caller).1 is Acquire {
                    1nat
                } else {
                    0nat
                },
                finished: before.finished,
            },
            CacheOp::Complete(outcome) => Tally {
                slot: complete(before.slot, outcome).0,
                started: before.started,
                finished: before.finished + if before.slot is Acquiring {
                    1nat
                } else {
                    0nat
                },
            },
            CacheOp::Invalidate => Tally { slot: invalidate(before.slot), ..before },
        }
    }
}

/// However requests, completions and invalidations interleave, at most one
/// acquisition is under way at any time: the number of callers told to
/// acquire exceeds the number of completed acquisitions by one while the
/// entry is acquiring, and by nothing otherwise.
pub proof fn law_one_outstanding(ops: Seq<CacheOp>)
    ensures
        run(ops).started == run(ops).finished + if run(ops).slot is Acquiring {
            1nat
        } else {
            0nat
        },
    decreases ops.len(),
{
    if ops.len() > 0 {
        law_one_outstanding(ops.drop_last());
    }
}

/// Invalidation is idempotent, and does nothing to an entry that holds no
/// token.
pub proof fn law_invalidate_idempotent(slot: SlotView)
    ensures
        invalidate(invalidate(slot)) == invalidate(slot),
        !(slot is Cached) ==> invalidate(slot) == slot,
        !(invalidate(slot) is Cached),
{
}

} // verus!
