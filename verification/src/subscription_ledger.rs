//! The subscription ledger: the subscriptions of the service, found by
//! their record id.
//!
//! No two subscriptions of a ledger share an id, and each keeps the
//! invariant of a subscription. Every operation either succeeds as its
//! contract says or is refused and leaves the ledger as it was.

use vstd::prelude::*;
use vstd::string::*;
use crate::common::{opt_view, PaymentMethod, SubscriptionPlan};
use crate::error::BillingError;
use crate::ids::RecordId;
use crate::search::{first_index, lemma_first_index, lemma_first_index_is};
use crate::subscription::{
    spec_activate, spec_cancel, spec_change_billing_date, spec_change_plan, spec_increment_renewal_attempt, spec_is_due,
    spec_is_past_grace, spec_new_subscription, spec_pause, spec_renew, spec_resume,
    spec_set_payment_details, spec_suspend, spec_update_status_based_on_dates,
    CreateSubscriptionRequest, ProrationCalculation, Subscription, SubscriptionStatus,
    SubscriptionView,
};
use crate::time::{current_time, Timestamp};

verus! {

/// The index of the first subscription with the id given, or the number of
/// subscriptions when none has it.
pub open spec fn sub_index(subs: Seq<SubscriptionView>, id: RecordId) -> int {
    first_index(subs, |s: SubscriptionView| s.id == id)
}

/// Whether a subscription has the id given.
pub open spec fn has_subscription(subs: Seq<SubscriptionView>, id: RecordId) -> bool {
    sub_index(subs, id) < subs.len()
}

/// Whether no two subscriptions share an id.
pub open spec fn unique_subscription_ids(subs: Seq<SubscriptionView>) -> bool {
    forall|i: int, j: int|
        0 <= i < j < subs.len() ==> (#[trigger] subs[i]).id != (#[trigger] subs[j]).id
}

/// The invariant of a ledger: ids are distinct and every subscription keeps
/// its own invariant.
pub open spec fn subscriptions_wf(subs: Seq<SubscriptionView>) -> bool {
    &&& unique_subscription_ids(subs)
    &&& forall|i: int| 0 <= i < subs.len() ==> (#[trigger] subs[i]).wf()
}

/// The ledger with the subscription at `i` replaced by the outcome of a
/// transition, or the refusal of that transition.
pub open spec fn replaced(
    subs: Seq<SubscriptionView>,
    i: int,
    outcome: Result<SubscriptionView, BillingError>,
) -> Result<Seq<SubscriptionView>, BillingError> {
    match outcome {
        Ok(v) => Ok(subs.update(i, v)),
        Err(e) => Err(e),
    }
}

/// The ledger after a subscription was created from `request`: appended,
/// `Pending`. An id that is in use is refused.
pub open spec fn spec_create_subscription(
    subs: Seq<SubscriptionView>,
    request: CreateSubscriptionRequest,
    id: RecordId,
    now: Timestamp,
) -> Result<Seq<SubscriptionView>, BillingError> {
    if has_subscription(subs, id) {
        Err(BillingError::DuplicateRecord)
    } else {
        Ok(subs.push(spec_new_subscription(request, id, now)))
    }
}

/// The ledger after [`spec_activate`] was applied to the subscription `id`.
pub open spec fn spec_ledger_activate(
    subs: Seq<SubscriptionView>,
    id: RecordId,
    now: Timestamp,
    grace_period_days: u32,
) -> Result<Seq<SubscriptionView>, BillingError> {
    let i = sub_index(subs, id);
    if i >= subs.len() {
        Err(BillingError::SubscriptionNotFound)
    } else {
        replaced(subs, i, spec_activate(subs[i], now, grace_period_days))
    }
}

/// The ledger after [`spec_renew`] was applied to the subscription `id`.
pub open spec fn spec_ledger_renew(
    subs: Seq<SubscriptionView>,
    id: RecordId,
    now: Timestamp,
    grace_period_days: u32,
) -> Result<Seq<SubscriptionView>, BillingError> {
    let i = sub_index(subs, id);
    if i >= subs.len() {
        Err(BillingError::SubscriptionNotFound)
    } else {
        replaced(subs, i, spec_renew(subs[i], now, grace_period_days))
    }
}

/// The ledger after [`spec_suspend`] was applied to the subscription `id`.
pub open spec fn spec_ledger_suspend(
    subs: Seq<SubscriptionView>,
    id: RecordId,
    now: Timestamp,
) -> Result<Seq<SubscriptionView>, BillingError> {
    let i = sub_index(subs, id);
    if i >= subs.len() {
        Err(BillingError::SubscriptionNotFound)
    } else {
        replaced(subs, i, spec_suspend(subs[i], now))
    }
}

/// The ledger after [`spec_cancel`] was applied to the subscription `id`.
pub open spec fn spec_ledger_cancel(
    subs: Seq<SubscriptionView>,
    id: RecordId,
    now: Timestamp,
) -> Result<Seq<SubscriptionView>, BillingError> {
    let i = sub_index(subs, id);
    if i >= subs.len() {
        Err(BillingError::SubscriptionNotFound)
    } else {
        replaced(subs, i, spec_cancel(subs[i], now))
    }
}

/// The ledger after [`spec_pause`] was applied to the subscription `id`.
pub open spec fn spec_ledger_pause(
    subs: Seq<SubscriptionView>,
    id: RecordId,
    now: Timestamp,
) -> Result<Seq<SubscriptionView>, BillingError> {
    let i = sub_index(subs, id);
    if i >= subs.len() {
        Err(BillingError::SubscriptionNotFound)
    } else {
        replaced(subs, i, spec_pause(subs[i], now))
    }
}

/// The ledger after [`spec_resume`] was applied to the subscription `id`.
pub open spec fn spec_ledger_resume(
    subs: Seq<SubscriptionView>,
    id: RecordId,
    now: Timestamp,
) -> Result<Seq<SubscriptionView>, BillingError> {
    let i = sub_index(subs, id);
    if i >= subs.len() {
        Err(BillingError::SubscriptionNotFound)
    } else {
        replaced(subs, i, spec_resume(subs[i], now))
    }
}

/// The ledger after [`spec_increment_renewal_attempt`] was applied to the subscription `id`.
pub open spec fn spec_ledger_record_failed_renewal(
    subs: Seq<SubscriptionView>,
    id: RecordId,
    now: Timestamp,
) -> Result<Seq<SubscriptionView>, BillingError> {
    let i = sub_index(subs, id);
    if i >= subs.len() {
        Err(BillingError::SubscriptionNotFound)
    } else {
        replaced(subs, i, spec_increment_renewal_attempt(subs[i], now))
    }
}

/// The ledger after [`spec_update_status_based_on_dates`] was applied to the subscription `id`.
pub open spec fn spec_ledger_refresh_status(
    subs: Seq<SubscriptionView>,
    id: RecordId,
    now: Timestamp,
    grace_period_days: u32,
) -> Result<Seq<SubscriptionView>, BillingError> {
    let i = sub_index(subs, id);
    if i >= subs.len() {
        Err(BillingError::SubscriptionNotFound)
    } else {
        replaced(subs, i, spec_update_status_based_on_dates(subs[i], now, grace_period_days))
    }
}

/// The ledger after the method and brand of a completed payment were
/// recorded on the subscription `id`.
pub open spec fn spec_ledger_set_payment_details(
    subs: Seq<SubscriptionView>,
    id: RecordId,
    method: PaymentMethod,
    brand: Option<Seq<char>>,
    now: Timestamp,
) -> Result<Seq<SubscriptionView>, BillingError> {
    let i = sub_index(subs, id);
    if i >= subs.len() {
        Err(BillingError::SubscriptionNotFound)
    } else {
        Ok(subs.update(i, spec_set_payment_details(subs[i], method, brand, now)))
    }
}

/// The ledger and the proration after the plan of the subscription `id`
/// was changed.
pub open spec fn spec_ledger_change_plan(
    subs: Seq<SubscriptionView>,
    id: RecordId,
    new_plan: SubscriptionPlan,
    effective_date: Option<Timestamp>,
    now: Timestamp,
) -> Result<(Seq<SubscriptionView>, ProrationCalculation), BillingError> {
    let i = sub_index(subs, id);
    if i >= subs.len() {
        Err(BillingError::SubscriptionNotFound)
    } else {
        match spec_change_plan(subs[i], new_plan, effective_date, now) {
            Ok((v, p)) => Ok((subs.update(i, v), p)),
            Err(e) => Err(e),
        }
    }
}

/// The ledger and the proration after the billing date of the
/// subscription `id` was moved.
pub open spec fn spec_ledger_change_billing_date(
    subs: Seq<SubscriptionView>,
    id: RecordId,
    new_billing_date: Timestamp,
    now: Timestamp,
) -> Result<(Seq<SubscriptionView>, ProrationCalculation), BillingError> {
    let i = sub_index(subs, id);
    if i >= subs.len() {
        Err(BillingError::SubscriptionNotFound)
    } else {
        match spec_change_billing_date(subs[i], new_billing_date, now) {
            Ok((v, p)) => Ok((subs.update(i, v), p)),
            Err(e) => Err(e),
        }
    }
}

/// Whether a call that returned `r` and left the ledger as `after` did what
/// `expected` asks of a ledger that was `before`.
pub open spec fn subscriptions_outcome(
    expected: Result<Seq<SubscriptionView>, BillingError>,
    r: Result<(), BillingError>,
    before: Seq<SubscriptionView>,
    after: Seq<SubscriptionView>,
) -> bool {
    match expected {
        Ok(v) => r.is_ok() && after == v,
        Err(e) => r == Err::<(), BillingError>(e) && after == before,
    }
}

/// Whether a creation that returned `r` and left the ledger as `after` did
/// what `expected` asks of a ledger that was `before`: on success the
/// subscription returned is the one appended.
pub open spec fn subscription_creation_outcome(
    expected: Result<Seq<SubscriptionView>, BillingError>,
    r: Result<Subscription, BillingError>,
    before: Seq<SubscriptionView>,
    after: Seq<SubscriptionView>,
) -> bool {
    match expected {
        Ok(v) => r.is_ok() && after == v && v.len() > 0 && r.unwrap()@ == v.last(),
        Err(e) => r.is_err() && r.unwrap_err() == e && after == before,
    }
}

/// Whether a subscription is due for renewal at `now`: it is active, or in
/// its grace period where `include_grace` says so, and its end date has
/// passed.
pub open spec fn spec_due_for_renewal(
    s: SubscriptionView,
    now: Timestamp,
    include_grace: bool,
) -> bool {
    (s.status == SubscriptionStatus::Active || (include_grace && s.status
        == SubscriptionStatus::Grace)) && spec_is_due(s, now)
}

/// Whether a subscription is unpaid beyond its grace period at `now`: it is
/// still running and the end of grace has passed.
pub open spec fn spec_expired_unpaid(s: SubscriptionView, now: Timestamp) -> bool {
    s.status.spec_is_running() && spec_is_past_grace(s, now)
}

/// The ids of the subscriptions that are due for renewal at `now`, in the
/// order of the ledger.
pub open spec fn spec_due_ids(
    subs: Seq<SubscriptionView>,
    now: Timestamp,
    include_grace: bool,
) -> Seq<RecordId> {
    subs.filter(|s: SubscriptionView| spec_due_for_renewal(s, now, include_grace)).map_values(
        |s: SubscriptionView| s.id,
    )
}

/// The ids of the subscriptions that are unpaid beyond their grace period
/// at `now`, in the order of the ledger.
pub open spec fn spec_expired_unpaid_ids(subs: Seq<SubscriptionView>, now: Timestamp) -> Seq<
    RecordId,
> {
    subs.filter(|s: SubscriptionView| spec_expired_unpaid(s, now)).map_values(
        |s: SubscriptionView| s.id,
    )
}

/// A subscription after the sweep looked at it at `now`: suspended if it
/// is unpaid beyond its grace period, else as it was.
pub open spec fn spec_swept(s: SubscriptionView, now: Timestamp) -> SubscriptionView {
    if spec_expired_unpaid(s, now) {
        SubscriptionView { status: SubscriptionStatus::Suspended, updated_at: now, ..s }
    } else {
        s
    }
}

/// The ledger after every subscription that is unpaid beyond its grace
/// period at `now` was suspended.
pub open spec fn spec_suspend_expired(subs: Seq<SubscriptionView>, now: Timestamp) -> Seq<
    SubscriptionView,
> {
    subs.map_values(|s: SubscriptionView| spec_swept(s, now))
}

/// The subscriptions of one user, in the order in which they were created.
pub open spec fn spec_subscriptions_of(subs: Seq<SubscriptionView>, user_id: RecordId) -> Seq<
    SubscriptionView,
> {
    subs.filter(|s: SubscriptionView| s.user_id == user_id)
}

/// The number of subscriptions that have the status given.
pub open spec fn spec_count_with_status(
    subs: Seq<SubscriptionView>,
    status: SubscriptionStatus,
) -> nat {
    subs.filter(|s: SubscriptionView| s.status == status).len()
}

/// Whether a subscription is the running subscription of a user.
pub open spec fn spec_running_for(s: SubscriptionView, user_id: RecordId) -> bool {
    s.user_id == user_id && s.status.spec_is_running()
}

/// The running subscription of a user: the one created last among those
/// that are active or in their grace period.
pub open spec fn spec_active_subscription_of(
    subs: Seq<SubscriptionView>,
    user_id: RecordId,
) -> Option<SubscriptionView> {
    let running = subs.filter(|s: SubscriptionView| spec_running_for(s, user_id));
    if running.len() > 0 {
        Some(running.last())
    } else {
        None
    }
}

/// Whether a subscription expires within `days_ahead` days of `now`: it is
/// active, renews by itself, and its end date is no later than that.
pub open spec fn spec_expiring(s: SubscriptionView, now: Timestamp, days_ahead: i64) -> bool {
    s.status == SubscriptionStatus::Active && s.auto_renew && s.end_date.is_some()
        && s.end_date.unwrap().millis <= now.millis + days_ahead * 86_400_000
}

/// The ids of the subscriptions that expire within `days_ahead` days of
/// `now`, in the order of the ledger.
pub open spec fn spec_expiring_ids(
    subs: Seq<SubscriptionView>,
    now: Timestamp,
    days_ahead: i64,
) -> Seq<RecordId> {
    subs.filter(|s: SubscriptionView| spec_expiring(s, now, days_ahead)).map_values(
        |s: SubscriptionView| s.id,
    )
}

/// The ids of the subscriptions that have the status given, in the order
/// of the ledger.
pub open spec fn spec_ids_with_status(
    subs: Seq<SubscriptionView>,
    status: SubscriptionStatus,
) -> Seq<RecordId> {
    subs.filter(|s: SubscriptionView| s.status == status).map_values(|s: SubscriptionView| s.id)
}

/// The subscriptions of the service.
#[derive(Debug)]
pub struct SubscriptionLedger {
    subscriptions: Vec<Subscription>,
}

impl View for SubscriptionLedger {
    type V = Seq<SubscriptionView>;

    closed spec fn view(&self) -> Seq<SubscriptionView> {
        Seq::new(self.subscriptions@.len(), |i: int| self.subscriptions@[i]@)
    }
}

/// Replacing a subscription by a well-formed one of the same id keeps the
/// invariant of a ledger.
pub proof fn lemma_update_keeps_wf(subs: Seq<SubscriptionView>, i: int, s: SubscriptionView)
    requires
        subscriptions_wf(subs),
        0 <= i < subs.len(),
        s.id == subs[i].id,
        s.wf(),
    ensures
        subscriptions_wf(subs.update(i, s)),
{
    let after = subs.update(i, s);
    assert forall|a: int, b: int| 0 <= a < b < after.len() implies (#[trigger] after[a]).id != (
    #[trigger] after[b]).id by {
        assert(subs[a].id != subs[b].id);
    }
    assert forall|a: int| 0 <= a < after.len() implies (#[trigger] after[a]).wf() by {
        if a != i {
            assert(subs[a].wf());
        }
    }
}

/// Replacing the subscription `id` by one of the same id leaves it where
/// it is found.
pub proof fn lemma_sub_index_after_update(
    subs: Seq<SubscriptionView>,
    id: RecordId,
    s: SubscriptionView,
)
    requires
        has_subscription(subs, id),
        s.id == id,
    ensures
        sub_index(subs.update(sub_index(subs, id), s), id) == sub_index(subs, id),
{
    let same = |q: SubscriptionView| q.id == id;
    let i = sub_index(subs, id);
    lemma_first_index(subs, same);
    let after = subs.update(i, s);
    assert forall|j: int| 0 <= j < i implies !same(#[trigger] after[j]) by {
        assert(after[j] == subs[j]);
    }
    lemma_first_index_is(after, same, i);
}

/// The subscription found under `id` has that id, and no subscription has
/// it when none is found.
pub proof fn lemma_sub_index(subs: Seq<SubscriptionView>, id: RecordId)
    ensures
        0 <= sub_index(subs, id) <= subs.len(),
        has_subscription(subs, id) ==> subs[sub_index(subs, id)].id == id,
        forall|j: int| 0 <= j < sub_index(subs, id) ==> (#[trigger] subs[j]).id != id,
{
    let same = |q: SubscriptionView| q.id == id;
    lemma_first_index(subs, same);
    assert forall|j: int| 0 <= j < sub_index(subs, id) implies (#[trigger] subs[j]).id != id by {
        assert(!same(subs[j]));
    }
}

/// Appending a well-formed subscription whose id is not in use keeps the
/// invariant of a ledger.
pub proof fn lemma_push_keeps_wf(subs: Seq<SubscriptionView>, s: SubscriptionView)
    requires
        subscriptions_wf(subs),
        !has_subscription(subs, s.id),
        s.wf(),
    ensures
        subscriptions_wf(subs.push(s)),
{
    let after = subs.push(s);
    let same = |q: SubscriptionView| q.id == s.id;
    lemma_first_index(subs, same);
    assert forall|a: int, b: int| 0 <= a < b < after.len() implies (#[trigger] after[a]).id != (
    #[trigger] after[b]).id by {
        if b < subs.len() {
            assert(subs[a].id != subs[b].id);
        } else {
            assert(!same(subs[a]));
        }
    }
    assert forall|a: int| 0 <= a < after.len() implies (#[trigger] after[a]).wf() by {
        if a < subs.len() {
            assert(subs[a].wf());
        }
    }
}

impl SubscriptionLedger {
    /// The invariant of the ledger; see [`subscriptions_wf`].
    pub open spec fn wf(&self) -> bool {
        subscriptions_wf(self@)
    }

    /// A ledger without subscriptions.
    pub fn new() -> (l: SubscriptionLedger)
        ensures
            l@ == Seq::<SubscriptionView>::empty(),
            l.wf(),
    {
        let l = SubscriptionLedger { subscriptions: Vec::new() };
        assert(l@ =~= Seq::<SubscriptionView>::empty());
        l
    }

    /// The ledger that holds the records given, in their order. Records
    /// of which two share an id are refused as duplicates, and so is a
    /// record whose dates are out of order, as out of range.
    pub fn from_records(records: Vec<Subscription>) -> (r: Result<SubscriptionLedger, BillingError>)
        ensures
            match r {
                Ok(l) => l.wf() && l@.len() == records@.len() && forall|i: int|
                    0 <= i < records@.len() ==> l@[i] == (#[trigger] records@[i])@,
                Err(e) => (e == BillingError::DuplicateRecord || e == BillingError::DateOutOfRange)
                    && !subscriptions_wf(Seq::new(records@.len(), |i: int| records@[i]@)),
            },
    {
        let ledger = SubscriptionLedger { subscriptions: records };
        let n = ledger.subscriptions.len();
        let mut j: usize = 0;
        while j < n
            invariant
                n == ledger.subscriptions@.len(),
                ledger.subscriptions@ == records@,
                j <= n,
                forall|a: int| 0 <= a < j ==> (#[trigger] ledger@[a]).wf(),
                forall|a: int, b: int|
                    0 <= a < b < j ==> (#[trigger] ledger@[a]).id != (#[trigger] ledger@[b]).id,
            decreases n - j,
        {
            if !ledger.subscriptions[j].is_well_formed() {
                proof {
                    let all = Seq::new(records@.len(), |k: int| records@[k]@);
                    assert(all =~= ledger@);
                    assert(!all[j as int].wf());
                }
                return Err(BillingError::DateOutOfRange);
            }
            let mut i: usize = 0;
            while i < j
                invariant
                    n == ledger.subscriptions@.len(),
                    ledger.subscriptions@ == records@,
                    j < n,
                    i <= j,
                    forall|a: int| 0 <= a < i ==> (#[trigger] ledger@[a]).id != ledger@[j as int].id,
                decreases j - i,
            {
                if ledger.subscriptions[i].id == ledger.subscriptions[j].id {
                    proof {
                        let all = Seq::new(records@.len(), |k: int| records@[k]@);
                        assert(all =~= ledger@);
                        assert(all[i as int].id == all[j as int].id);
                    }
                    return Err(BillingError::DuplicateRecord);
                }
                i += 1;
            }
            j += 1;
        }
        Ok(ledger)
    }

    /// The number of subscriptions.
    pub fn len(&self) -> (n: usize)
        ensures
            n == self@.len(),
    {
        self.subscriptions.len()
    }

    /// Where the subscription `id` stands; see [`sub_index`].
    pub fn position(&self, id: RecordId) -> (i: usize)
        ensures
            i == sub_index(self@, id),
            i <= self@.len(),
    {
        let n = self.subscriptions.len();
        let mut i: usize = 0;
        while i < n && self.subscriptions[i].id != id
            invariant
                n == self.subscriptions@.len(),
                i <= n,
                forall|j: int| 0 <= j < i ==> (#[trigger] self@[j]).id != id,
            decreases n - i,
        {
            i += 1;
        }
        proof {
            lemma_first_index_is(self@, |s: SubscriptionView| s.id == id, i as int);
        }
        i
    }

    /// The subscription at `index`.
    pub fn subscription_at(&self, index: usize) -> (s: &Subscription)
        requires
            index < self@.len(),
        ensures
            s@ == self@[index as int],
    {
        &self.subscriptions[index]
    }

    /// The subscription with the id given, if there is one.
    pub fn get_subscription(&self, id: RecordId) -> (r: Option<&Subscription>)
        ensures
            match r {
                Some(s) => has_subscription(self@, id) && s@ == self@[sub_index(self@, id)],
                None => !has_subscription(self@, id),
            },
    {
        let i = self.position(id);
        if i < self.subscriptions.len() {
            Some(&self.subscriptions[i])
        } else {
            None
        }
    }

    /// Records the subscription that `request` creates at `now` under the
    /// id given, and returns a copy of it; see [`spec_create_subscription`].
    pub fn create_subscription_at(
        &mut self,
        request: CreateSubscriptionRequest,
        id: RecordId,
        now: Timestamp,
    ) -> (r: Result<Subscription, BillingError>)
        ensures
            subscription_creation_outcome(
                spec_create_subscription(old(self)@, request, id, now),
                r,
                old(self)@,
                final(self)@,
            ),
            old(self).wf() ==> final(self).wf(),
    {
        if self.position(id) < self.subscriptions.len() {
            return Err(BillingError::DuplicateRecord);
        }
        let subscription = Subscription::new_at(request, id, now);
        let copy = subscription.clone();
        proof {
            if old(self).wf() {
                lemma_push_keeps_wf(old(self)@, subscription@);
            }
        }
        self.subscriptions.push(subscription);
        assert(self@ =~= old(self)@.push(copy@));
        Ok(copy)
    }

    /// Records the subscription that `request` creates now, under a fresh
    /// random id.
    pub fn create_subscription(&mut self, request: CreateSubscriptionRequest) -> (r: Result<
        Subscription,
        BillingError,
    >)
        ensures
            exists|id: RecordId, now: Timestamp|
                subscription_creation_outcome(
                    #[trigger] spec_create_subscription(old(self)@, request, id, now),
                    r,
                    old(self)@,
                    final(self)@,
                ),
            old(self).wf() ==> final(self).wf(),
    {
        let id = RecordId::generate();
        let now = current_time();
        self.create_subscription_at(request, id, now)
    }

    /// Activates the subscription `id`, which must be pending; see [`spec_activate`]. An unknown id is refused as not found.
    pub fn activate(&mut self, id: RecordId, now: Timestamp, grace_period_days: u32) -> (r: Result<(), BillingError>)
        ensures
            subscriptions_outcome(
                spec_ledger_activate(old(self)@, id, now, grace_period_days),
                r,
                old(self)@,
                final(self)@,
            ),
            old(self).wf() ==> final(self).wf(),
    {
        let i = self.position(id);
        if i >= self.subscriptions.len() {
            return Err(BillingError::SubscriptionNotFound);
        }
        let r = self.subscriptions[i].activate_at(now, grace_period_days);
        proof {
            assert(old(self)@.update(i as int, old(self)@[i as int]) =~= old(self)@);
            assert(self@ =~= old(self)@.update(i as int, self.subscriptions@[i as int]@));
            if old(self).wf() {
                lemma_update_keeps_wf(old(self)@, i as int, self.subscriptions@[i as int]@);
            }
        }
        r
    }

    /// Renews the subscription `id`, which must be running, by one period from its
    /// present end date; see [`spec_renew`]. An unknown id is refused as not found.
    pub fn renew(&mut self, id: RecordId, now: Timestamp, grace_period_days: u32) -> (r: Result<(), BillingError>)
        ensures
            subscriptions_outcome(
                spec_ledger_renew(old(self)@, id, now, grace_period_days),
                r,
                old(self)@,
                final(self)@,
            ),
            old(self).wf() ==> final(self).wf(),
    {
        let i = self.position(id);
        if i >= self.subscriptions.len() {
            return Err(BillingError::SubscriptionNotFound);
        }
        let r = self.subscriptions[i].renew_at(now, grace_period_days);
        proof {
            assert(old(self)@.update(i as int, old(self)@[i as int]) =~= old(self)@);
            assert(self@ =~= old(self)@.update(i as int, self.subscriptions@[i as int]@));
            if old(self).wf() {
                lemma_update_keeps_wf(old(self)@, i as int, self.subscriptions@[i as int]@);
            }
        }
        r
    }

    /// Suspends the subscription `id`, which must be running; see [`spec_suspend`]. An unknown id is refused as not found.
    pub fn suspend(&mut self, id: RecordId, now: Timestamp) -> (r: Result<(), BillingError>)
        ensures
            subscriptions_outcome(
                spec_ledger_suspend(old(self)@, id, now),
                r,
                old(self)@,
                final(self)@,
            ),
            old(self).wf() ==> final(self).wf(),
    {
        let i = self.position(id);
        if i >= self.subscriptions.len() {
            return Err(BillingError::SubscriptionNotFound);
        }
        let r = self.subscriptions[i].suspend_at(now);
        proof {
            assert(old(self)@.update(i as int, old(self)@[i as int]) =~= old(self)@);
            assert(self@ =~= old(self)@.update(i as int, self.subscriptions@[i as int]@));
            if old(self).wf() {
                lemma_update_keeps_wf(old(self)@, i as int, self.subscriptions@[i as int]@);
            }
        }
        r
    }

    /// Cancels the subscription `id`, which must not have ended; see [`spec_cancel`]. An unknown id is refused as not found.
    pub fn cancel(&mut self, id: RecordId, now: Timestamp) -> (r: Result<(), BillingError>)
        ensures
            subscriptions_outcome(
                spec_ledger_cancel(old(self)@, id, now),
                r,
                old(self)@,
                final(self)@,
            ),
            old(self).wf() ==> final(self).wf(),
    {
        let i = self.position(id);
        if i >= self.subscriptions.len() {
            return Err(BillingError::SubscriptionNotFound);
        }
        let r = self.subscriptions[i].cancel_at(now);
        proof {
            assert(old(self)@.update(i as int, old(self)@[i as int]) =~= old(self)@);
            assert(self@ =~= old(self)@.update(i as int, self.subscriptions@[i as int]@));
            if old(self).wf() {
                lemma_update_keeps_wf(old(self)@, i as int, self.subscriptions@[i as int]@);
            }
        }
        r
    }

    /// Pauses the subscription `id`, which must be active; see [`spec_pause`]. An unknown id is refused as not found.
    pub fn pause(&mut self, id: RecordId, now: Timestamp) -> (r: Result<(), BillingError>)
        ensures
            subscriptions_outcome(
                spec_ledger_pause(old(self)@, id, now),
                r,
                old(self)@,
                final(self)@,
            ),
            old(self).wf() ==> final(self).wf(),
    {
        let i = self.position(id);
        if i >= self.subscriptions.len() {
            return Err(BillingError::SubscriptionNotFound);
        }
        let r = self.subscriptions[i].pause_at(now);
        proof {
            assert(old(self)@.update(i as int, old(self)@[i as int]) =~= old(self)@);
            assert(self@ =~= old(self)@.update(i as int, self.subscriptions@[i as int]@));
            if old(self).wf() {
                lemma_update_keeps_wf(old(self)@, i as int, self.subscriptions@[i as int]@);
            }
        }
        r
    }

    /// Resumes the subscription `id`, which must be suspended; see [`spec_resume`]. An unknown id is refused as not found.
    pub fn resume(&mut self, id: RecordId, now: Timestamp) -> (r: Result<(), BillingError>)
        ensures
            subscriptions_outcome(
                spec_ledger_resume(old(self)@, id, now),
                r,
                old(self)@,
                final(self)@,
            ),
            old(self).wf() ==> final(self).wf(),
    {
        let i = self.position(id);
        if i >= self.subscriptions.len() {
            return Err(BillingError::SubscriptionNotFound);
        }
        let r = self.subscriptions[i].resume_at(now);
        proof {
            assert(old(self)@.update(i as int, old(self)@[i as int]) =~= old(self)@);
            assert(self@ =~= old(self)@.update(i as int, self.subscriptions@[i as int]@));
            if old(self).wf() {
                lemma_update_keeps_wf(old(self)@, i as int, self.subscriptions@[i as int]@);
            }
        }
        r
    }

    /// Counts one more failed renewal of the subscription `id`; see [`spec_increment_renewal_attempt`]. An unknown id is refused as not found.
    pub fn record_failed_renewal(&mut self, id: RecordId, now: Timestamp) -> (r: Result<(), BillingError>)
        ensures
            subscriptions_outcome(
                spec_ledger_record_failed_renewal(old(self)@, id, now),
                r,
                old(self)@,
                final(self)@,
            ),
            old(self).wf() ==> final(self).wf(),
    {
        let i = self.position(id);
        if i >= self.subscriptions.len() {
            return Err(BillingError::SubscriptionNotFound);
        }
        let r = self.subscriptions[i].increment_renewal_attempt_at(now);
        proof {
            assert(old(self)@.update(i as int, old(self)@[i as int]) =~= old(self)@);
            assert(self@ =~= old(self)@.update(i as int, self.subscriptions@[i as int]@));
            if old(self).wf() {
                lemma_update_keeps_wf(old(self)@, i as int, self.subscriptions@[i as int]@);
            }
        }
        r
    }

    /// Brings the status of the subscription `id` up to date; see [`spec_update_status_based_on_dates`]. An unknown id is refused as not found.
    pub fn refresh_status(&mut self, id: RecordId, now: Timestamp, grace_period_days: u32) -> (r: Result<(), BillingError>)
        ensures
            subscriptions_outcome(
                spec_ledger_refresh_status(old(self)@, id, now, grace_period_days),
                r,
                old(self)@,
                final(self)@,
            ),
            old(self).wf() ==> final(self).wf(),
    {
        let i = self.position(id);
        if i >= self.subscriptions.len() {
            return Err(BillingError::SubscriptionNotFound);
        }
        let r = self.subscriptions[i].update_status_based_on_dates_at(now, grace_period_days);
        proof {
            assert(old(self)@.update(i as int, old(self)@[i as int]) =~= old(self)@);
            assert(self@ =~= old(self)@.update(i as int, self.subscriptions@[i as int]@));
            if old(self).wf() {
                lemma_update_keeps_wf(old(self)@, i as int, self.subscriptions@[i as int]@);
            }
        }
        r
    }

    /// Records the method and brand of a completed payment on the
    /// subscription `id`.
    pub fn set_payment_details(
        &mut self,
        id: RecordId,
        method: PaymentMethod,
        brand: Option<String>,
        now: Timestamp,
    ) -> (r: Result<(), BillingError>)
        ensures
            subscriptions_outcome(
                spec_ledger_set_payment_details(old(self)@, id, method, opt_view(brand), now),
                r,
                old(self)@,
                final(self)@,
            ),
            old(self).wf() ==> final(self).wf(),
    {
        let i = self.position(id);
        if i >= self.subscriptions.len() {
            return Err(BillingError::SubscriptionNotFound);
        }
        self.subscriptions[i].set_payment_details_at(method, brand, now);
        proof {
            assert(self@ =~= old(self)@.update(i as int, self.subscriptions@[i as int]@));
            if old(self).wf() {
                lemma_update_keeps_wf(old(self)@, i as int, self.subscriptions@[i as int]@);
            }
        }
        Ok(())
    }

    /// Changes the plan of the subscription `id` and reports what the
    /// change costs; see [`spec_change_plan`].
    pub fn change_plan(
        &mut self,
        id: RecordId,
        new_plan: SubscriptionPlan,
        effective_date: Option<Timestamp>,
        now: Timestamp,
    ) -> (r: Result<ProrationCalculation, BillingError>)
        ensures
            match spec_ledger_change_plan(old(self)@, id, new_plan, effective_date, now) {
                Ok((v, p)) => r == Ok::<ProrationCalculation, BillingError>(p) && final(self)@ == v,
                Err(e) => r == Err::<ProrationCalculation, BillingError>(e) && final(self)@ == old(
                    self,
                )@,
            },
            old(self).wf() ==> final(self).wf(),
    {
        let i = self.position(id);
        if i >= self.subscriptions.len() {
            return Err(BillingError::SubscriptionNotFound);
        }
        let r = self.subscriptions[i].change_plan_at(new_plan, effective_date, now);
        proof {
            assert(old(self)@.update(i as int, old(self)@[i as int]) =~= old(self)@);
            assert(self@ =~= old(self)@.update(i as int, self.subscriptions@[i as int]@));
            if old(self).wf() {
                lemma_update_keeps_wf(old(self)@, i as int, self.subscriptions@[i as int]@);
            }
        }
        r
    }

    /// Moves the billing date of the subscription `id` and reports what
    /// the move costs; see [`spec_change_billing_date`].
    pub fn change_billing_date(&mut self, id: RecordId, new_billing_date: Timestamp, now: Timestamp) -> (r:
        Result<ProrationCalculation, BillingError>)
        ensures
            match spec_ledger_change_billing_date(old(self)@, id, new_billing_date, now) {
                Ok((v, p)) => r == Ok::<ProrationCalculation, BillingError>(p) && final(self)@ == v,
                Err(e) => r == Err::<ProrationCalculation, BillingError>(e) && final(self)@ == old(
                    self,
                )@,
            },
            old(self).wf() ==> final(self).wf(),
    {
        let i = self.position(id);
        if i >= self.subscriptions.len() {
            return Err(BillingError::SubscriptionNotFound);
        }
        let r = self.subscriptions[i].change_billing_date_at(new_billing_date, now);
        proof {
            assert(old(self)@.update(i as int, old(self)@[i as int]) =~= old(self)@);
            assert(self@ =~= old(self)@.update(i as int, self.subscriptions@[i as int]@));
            if old(self).wf() {
                lemma_update_keeps_wf(old(self)@, i as int, self.subscriptions@[i as int]@);
            }
        }
        r
    }

    /// Whether the subscription at `index` is due for renewal at `now`; see
    /// [`spec_due_for_renewal`].
    pub fn is_due_for_renewal(&self, index: usize, now: Timestamp, include_grace: bool) -> (b: bool)
        requires
            index < self@.len(),
        ensures
            b == spec_due_for_renewal(self@[index as int], now, include_grace),
    {
        let s = &self.subscriptions[index];
        let eligible = match s.status {
            SubscriptionStatus::Active => true,
            SubscriptionStatus::Grace => include_grace,
            _ => false,
        };
        eligible && s.is_due_at(now)
    }

    /// Whether the subscription at `index` is unpaid beyond its grace
    /// period at `now`; see [`spec_expired_unpaid`].
    pub fn is_expired_unpaid(&self, index: usize, now: Timestamp) -> (b: bool)
        requires
            index < self@.len(),
        ensures
            b == spec_expired_unpaid(self@[index as int], now),
    {
        let s = &self.subscriptions[index];
        s.status.is_running() && s.is_past_grace_at(now)
    }

    /// The ids of the subscriptions that are due for renewal at `now`; see
    /// [`spec_due_ids`].
    pub fn due_subscriptions(&self, now: Timestamp, include_grace: bool) -> (ids: Vec<RecordId>)
        ensures
            ids@ == spec_due_ids(self@, now, include_grace),
    {
        let ghost due = |s: SubscriptionView| spec_due_for_renewal(s, now, include_grace);
        let ghost id_of = |s: SubscriptionView| s.id;
        let mut ids: Vec<RecordId> = Vec::new();
        let n = self.subscriptions.len();
        let mut i: usize = 0;
        proof {
            reveal(Seq::filter);
            assert(self@.take(0) =~= Seq::<SubscriptionView>::empty());
            assert(ids@ =~= self@.take(0).filter(due).map_values(id_of));
        }
        while i < n
            invariant
                n == self.subscriptions@.len(),
                i <= n,
                due == |s: SubscriptionView| spec_due_for_renewal(s, now, include_grace),
                id_of == |s: SubscriptionView| s.id,
                ids@ == self@.take(i as int).filter(due).map_values(id_of),
            decreases n - i,
        {
            let is_due = self.is_due_for_renewal(i, now, include_grace);
            proof {
                reveal(Seq::filter);
                let next = self@.take(i + 1);
                let before = self@.take(i as int);
                assert(next.drop_last() =~= before);
                assert(next.last() == self@[i as int]);
                if is_due {
                    assert(before.filter(due).push(self@[i as int]).map_values(id_of)
                        =~= before.filter(due).map_values(id_of).push(self@[i as int].id));
                }
            }
            if is_due {
                ids.push(self.subscriptions[i].id);
            }
            i += 1;
        }
        assert(self@.take(n as int) =~= self@);
        ids
    }

    /// Suspends every subscription that is unpaid beyond its grace period
    /// at `now`, and returns their ids; see [`spec_suspend_expired`].
    pub fn suspend_expired_unpaid(&mut self, now: Timestamp) -> (ids: Vec<RecordId>)
        ensures
            final(self)@ == spec_suspend_expired(old(self)@, now),
            ids@ == spec_expired_unpaid_ids(old(self)@, now),
            old(self).wf() ==> final(self).wf(),
    {
        let ghost before = self@;
        let ghost unpaid = |s: SubscriptionView| spec_expired_unpaid(s, now);
        let ghost id_of = |s: SubscriptionView| s.id;
        let mut ids: Vec<RecordId> = Vec::new();
        let n = self.subscriptions.len();
        let mut i: usize = 0;
        proof {
            reveal(Seq::filter);
            assert(before.take(0) =~= Seq::<SubscriptionView>::empty());
            assert(ids@ =~= before.take(0).filter(unpaid).map_values(id_of));
        }
        while i < n
            invariant
                n == self.subscriptions@.len(),
                n == before.len(),
                before == old(self)@,
                i <= n,
                unpaid == |s: SubscriptionView| spec_expired_unpaid(s, now),
                id_of == |s: SubscriptionView| s.id,
                ids@ == before.take(i as int).filter(unpaid).map_values(id_of),
                forall|j: int| 0 <= j < i ==> (#[trigger] self@[j]) == spec_swept(before[j], now),
                forall|j: int| i <= j < n ==> (#[trigger] self@[j]) == before[j],
            decreases n - i,
        {
            let is_unpaid = self.is_expired_unpaid(i, now);
            proof {
                reveal(Seq::filter);
                let next = before.take(i + 1);
                let sofar = before.take(i as int);
                assert(next.drop_last() =~= sofar);
                assert(next.last() == before[i as int]);
                assert(self@[i as int] == before[i as int]);
                if is_unpaid {
                    assert(sofar.filter(unpaid).push(before[i as int]).map_values(id_of)
                        =~= sofar.filter(unpaid).map_values(id_of).push(before[i as int].id));
                }
            }
            if is_unpaid {
                ids.push(self.subscriptions[i].id);
                let ghost snapshot = self@;
                let _ = self.subscriptions[i].suspend_at(now);
                proof {
                    assert forall|j: int| 0 <= j < n && j != i implies #[trigger] self@[j]
                        == snapshot[j] by {}
                }
            }
            i += 1;
        }
        proof {
            assert(before.take(n as int) =~= before);
            assert(self@ =~= spec_suspend_expired(before, now));
            if old(self).wf() {
                assert forall|a: int, b: int| 0 <= a < b < self@.len() implies (
                #[trigger] self@[a]).id != (#[trigger] self@[b]).id by {
                    assert(before[a].id != before[b].id);
                }
                assert forall|a: int| 0 <= a < self@.len() implies (#[trigger] self@[a]).wf() by {
                    assert(before[a].wf());
                }
            }
        }
        ids
    }

    /// The subscriptions of one user, oldest first.
    pub fn get_subscriptions_by_user(&self, user_id: RecordId) -> (found: Vec<Subscription>)
        ensures
            found@.len() == spec_subscriptions_of(self@, user_id).len(),
            forall|i: int|
                0 <= i < found@.len() ==> (#[trigger] found@[i])@ == spec_subscriptions_of(
                    self@,
                    user_id,
                )[i],
    {
        let ghost wanted = |s: SubscriptionView| s.user_id == user_id;
        let mut found: Vec<Subscription> = Vec::new();
        let n = self.subscriptions.len();
        let mut i: usize = 0;
        proof {
            reveal(Seq::filter);
            assert(self@.take(0) =~= Seq::<SubscriptionView>::empty());
        }
        while i < n
            invariant
                n == self.subscriptions@.len(),
                i <= n,
                wanted == |s: SubscriptionView| s.user_id == user_id,
                found@.len() == self@.take(i as int).filter(wanted).len(),
                forall|j: int|
                    0 <= j < found@.len() ==> (#[trigger] found@[j])@ == self@.take(
                        i as int,
                    ).filter(wanted)[j],
            decreases n - i,
        {
            proof {
                reveal(Seq::filter);
                let next = self@.take(i + 1);
                assert(next.drop_last() =~= self@.take(i as int));
                assert(next.last() == self@[i as int]);
            }
            if self.subscriptions[i].user_id == user_id {
                found.push(self.subscriptions[i].clone());
            }
            i += 1;
        }
        assert(self@.take(n as int) =~= self@);
        found
    }

    /// The number of subscriptions that have the status given.
    pub fn count_with_status(&self, status: SubscriptionStatus) -> (count: usize)
        ensures
            count == spec_count_with_status(self@, status),
    {
        let ghost wanted = |s: SubscriptionView| s.status == status;
        let n = self.subscriptions.len();
        let mut count: usize = 0;
        let mut i: usize = 0;
        proof {
            reveal(Seq::filter);
            assert(self@.take(0) =~= Seq::<SubscriptionView>::empty());
        }
        while i < n
            invariant
                n == self.subscriptions@.len(),
                i <= n,
                count <= i,
                wanted == |s: SubscriptionView| s.status == status,
                count == self@.take(i as int).filter(wanted).len(),
            decreases n - i,
        {
            proof {
                reveal(Seq::filter);
                let next = self@.take(i + 1);
                assert(next.drop_last() =~= self@.take(i as int));
                assert(next.last() == self@[i as int]);
            }
            if self.subscriptions[i].status == status {
                count += 1;
            }
            i += 1;
        }
        assert(self@.take(n as int) =~= self@);
        count
    }

    /// The running subscription of a user, if there is one; see
    /// [`spec_active_subscription_of`].
    pub fn get_active_subscription_by_user(&self, user_id: RecordId) -> (r: Option<&Subscription>)
        ensures
            match r {
                Some(s) => spec_active_subscription_of(self@, user_id) == Some(s@),
                None => spec_active_subscription_of(self@, user_id).is_none(),
            },
    {
        let ghost wanted = |s: SubscriptionView| spec_running_for(s, user_id);
        let n = self.subscriptions.len();
        let mut found: Option<usize> = None;
        let mut i: usize = 0;
        proof {
            reveal(Seq::filter);
            assert(self@.take(0) =~= Seq::<SubscriptionView>::empty());
        }
        while i < n
            invariant
                n == self.subscriptions@.len(),
                i <= n,
                wanted == |s: SubscriptionView| spec_running_for(s, user_id),
                match found {
                    Some(k) => k < i && self@.take(i as int).filter(wanted).len() > 0 && self@.take(
                        i as int,
                    ).filter(wanted).last() == self@[k as int],
                    None => self@.take(i as int).filter(wanted).len() == 0,
                },
            decreases n - i,
        {
            proof {
                reveal(Seq::filter);
                let next = self@.take(i + 1);
                assert(next.drop_last() =~= self@.take(i as int));
                assert(next.last() == self@[i as int]);
            }
            let s = &self.subscriptions[i];
            if s.user_id == user_id && s.status.is_running() {
                found = Some(i);
            }
            i += 1;
        }
        assert(self@.take(n as int) =~= self@);
        match found {
            Some(k) => Some(&self.subscriptions[k]),
            None => None,
        }
    }

    /// The ids of the subscriptions that expire within `days_ahead` days of
    /// `now`; see [`spec_expiring`].
    pub fn get_expiring_subscriptions(&self, now: Timestamp, days_ahead: i64) -> (ids: Vec<RecordId>)
        ensures
            ids@ == spec_expiring_ids(self@, now, days_ahead),
    {
        let ghost wanted = |s: SubscriptionView| spec_expiring(s, now, days_ahead);
        let ghost id_of = |s: SubscriptionView| s.id;
        let mut ids: Vec<RecordId> = Vec::new();
        let n = self.subscriptions.len();
        let horizon: i128 = (now.millis as i128) + (days_ahead as i128) * 86_400_000i128;
        let mut i: usize = 0;
        proof {
            reveal(Seq::filter);
            assert(self@.take(0) =~= Seq::<SubscriptionView>::empty());
            assert(ids@ =~= self@.take(0).filter(wanted).map_values(id_of));
        }
        while i < n
            invariant
                n == self.subscriptions@.len(),
                i <= n,
                horizon == now.millis + days_ahead * 86_400_000,
                wanted == |s: SubscriptionView| spec_expiring(s, now, days_ahead),
                id_of == |s: SubscriptionView| s.id,
                ids@ == self@.take(i as int).filter(wanted).map_values(id_of),
            decreases n - i,
        {
            let s = &self.subscriptions[i];
            let expiring = s.status == SubscriptionStatus::Active && s.auto_renew && match s.end_date {
                Some(end) => (end.millis as i128) <= horizon,
                None => false,
            };
            proof {
                reveal(Seq::filter);
                let next = self@.take(i + 1);
                let before = self@.take(i as int);
                assert(next.drop_last() =~= before);
                assert(next.last() == self@[i as int]);
                if expiring {
                    assert(before.filter(wanted).push(self@[i as int]).map_values(id_of)
                        =~= before.filter(wanted).map_values(id_of).push(self@[i as int].id));
                }
            }
            if expiring {
                ids.push(s.id);
            }
            i += 1;
        }
        assert(self@.take(n as int) =~= self@);
        ids
    }

    /// The ids of the subscriptions that have the status given.
    pub fn subscriptions_with_status(&self, status: SubscriptionStatus) -> (ids: Vec<RecordId>)
        ensures
            ids@ == spec_ids_with_status(self@, status),
    {
        let ghost wanted = |s: SubscriptionView| s.status == status;
        let ghost id_of = |s: SubscriptionView| s.id;
        let mut ids: Vec<RecordId> = Vec::new();
        let n = self.subscriptions.len();
        let mut i: usize = 0;
        proof {
            reveal(Seq::filter);
            assert(self@.take(0) =~= Seq::<SubscriptionView>::empty());
            assert(ids@ =~= self@.take(0).filter(wanted).map_values(id_of));
        }
        while i < n
            invariant
                n == self.subscriptions@.len(),
                i <= n,
                wanted == |s: SubscriptionView| s.status == status,
                id_of == |s: SubscriptionView| s.id,
                ids@ == self@.take(i as int).filter(wanted).map_values(id_of),
            decreases n - i,
        {
            proof {
                reveal(Seq::filter);
                let next = self@.take(i + 1);
                let before = self@.take(i as int);
                assert(next.drop_last() =~= before);
                assert(next.last() == self@[i as int]);
                if self@[i as int].status == status {
                    assert(before.filter(wanted).push(self@[i as int]).map_values(id_of)
                        =~= before.filter(wanted).map_values(id_of).push(self@[i as int].id));
                }
            }
            if self.subscriptions[i].status == status {
                ids.push(self.subscriptions[i].id);
            }
            i += 1;
        }
        assert(self@.take(n as int) =~= self@);
        ids
    }

    /// The ids of the subscriptions that are unpaid beyond their grace
    /// period at `now`; see [`spec_expired_unpaid`].
    pub fn get_expired_unpaid_subscriptions(&self, now: Timestamp) -> (ids: Vec<RecordId>)
        ensures
            ids@ == spec_expired_unpaid_ids(self@, now),
    {
        let ghost wanted = |s: SubscriptionView| spec_expired_unpaid(s, now);
        let ghost id_of = |s: SubscriptionView| s.id;
        let mut ids: Vec<RecordId> = Vec::new();
        let n = self.subscriptions.len();
        let mut i: usize = 0;
        proof {
            reveal(Seq::filter);
            assert(self@.take(0) =~= Seq::<SubscriptionView>::empty());
            assert(ids@ =~= self@.take(0).filter(wanted).map_values(id_of));
        }
        while i < n
            invariant
                n == self.subscriptions@.len(),
                i <= n,
                wanted == |s: SubscriptionView| spec_expired_unpaid(s, now),
                id_of == |s: SubscriptionView| s.id,
                ids@ == self@.take(i as int).filter(wanted).map_values(id_of),
            decreases n - i,
        {
            let unpaid = self.is_expired_unpaid(i, now);
            proof {
                reveal(Seq::filter);
                let next = self@.take(i + 1);
                let before = self@.take(i as int);
                assert(next.drop_last() =~= before);
                assert(next.last() == self@[i as int]);
                if unpaid {
                    assert(before.filter(wanted).push(self@[i as int]).map_values(id_of)
                        =~= before.filter(wanted).map_values(id_of).push(self@[i as int].id));
                }
            }
            if unpaid {
                ids.push(self.subscriptions[i].id);
            }
            i += 1;
        }
        assert(self@.take(n as int) =~= self@);
        ids
    }
}

} // verus!
