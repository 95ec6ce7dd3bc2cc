//! The renewal scheduler.
//!
//! A sweep looks at every subscription that is due. Where the user has a
//! stored token and the subscription may renew by itself, the caller is
//! handed a charge to put to the gateway, and reports back what the gateway
//! said. A charge that succeeded renews the subscription. A charge that
//! failed, or that was never answered, counts as a failed attempt and
//! sends the user a notification; it is never tried again within the sweep
//! and never taken for a success. Where no charge can be made the user is
//! notified straight away. Once all due subscriptions were looked at, the
//! sweep suspends those that are unpaid beyond their grace period.
//!
//! The scheduler itself never talks to the gateway: it decides, and the
//! caller acts. One subscription's failure therefore cannot stop the sweep
//! of the others.

use vstd::prelude::*;
use vstd::string::*;
use crate::common::opt_view;
use crate::error::BillingError;
use crate::ids::{random_u128, renewal_prefix, renewal_transaction_id_from, simple_hex, RecordId};
use crate::money::Amount;
use crate::notification::{spec_renewal_notification, NotificationMailbox, NotificationView};
use crate::payment::{spec_status_of_code, PaymentStatus};
use crate::recurring::{spec_token_of, RecurringLedger, RecurringPaymentView};
use crate::subscription::{spec_renew, Subscription, SubscriptionView};
use crate::subscription_ledger::{
    has_subscription, lemma_sub_index, spec_expired_unpaid, spec_expired_unpaid_ids,
    spec_suspend_expired, spec_ledger_record_failed_renewal, spec_ledger_renew,
    sub_index, SubscriptionLedger,
};
use crate::time::{current_time, Timestamp};

verus! {

/// A charge for the caller to put to the gateway.
#[derive(Debug)]
pub struct RenewalCharge {
    pub subscription_id: RecordId,
    pub user_id: RecordId,
    /// The stored token to charge.
    pub token: String,
    pub amount: Amount,
    /// The fresh merchant transaction id of the charge.
    pub merchant_transaction_id: String,
}

/// A charge as a mathematical value.
pub struct RenewalChargeView {
    pub subscription_id: RecordId,
    pub user_id: RecordId,
    pub token: Seq<char>,
    pub amount: Amount,
    pub merchant_transaction_id: Seq<char>,
}

impl View for RenewalCharge {
    type V = RenewalChargeView;

    open spec fn view(&self) -> RenewalChargeView {
        RenewalChargeView {
            subscription_id: self.subscription_id,
            user_id: self.user_id,
            token: self.token@,
            amount: self.amount,
            merchant_transaction_id: self.merchant_transaction_id@,
        }
    }
}

/// The view of an optional charge.
pub open spec fn opt_charge_view(c: Option<RenewalCharge>) -> Option<RenewalChargeView> {
    match c {
        Some(c) => Some(c@),
        None => None,
    }
}

/// What the gateway made of a charge.
#[derive(Debug)]
pub enum ChargeOutcome {
    /// The gateway answered with a result code.
    Answered(String),
    /// The gateway did not answer in time, or not in a form that can be
    /// read.
    Unanswered,
}

impl ChargeOutcome {
    /// Whether the charge is known to have succeeded: the gateway answered
    /// with a result code that stands for a completed payment.
    pub open spec fn spec_succeeded(self) -> bool {
        match self {
            ChargeOutcome::Answered(code) => spec_status_of_code(code@)
                == PaymentStatus::Completed,
            ChargeOutcome::Unanswered => false,
        }
    }

    /// Whether the charge is known to have succeeded.
    pub fn succeeded(&self) -> (b: bool)
        ensures
            b == self.spec_succeeded(),
    {
        match self {
            ChargeOutcome::Answered(code) => PaymentStatus::from_peach_code(code.as_str())
                == PaymentStatus::Completed,
            ChargeOutcome::Unanswered => false,
        }
    }
}

/// What became of a renewal.
#[derive(Clone, Copy, Debug, PartialEq, Eq, Structural)]
pub enum RenewalResult {
    /// The charge succeeded and the subscription was renewed.
    Renewed,
    /// The charge succeeded but the subscription could not be renewed.
    RenewalRefused(BillingError),
    /// The charge did not succeed; the attempt was counted and the user
    /// told to renew by hand.
    ManualRenewalRequested,
}

/// Whether a subscription can be charged automatically: a token is stored
/// for its user, it renews by itself, and it has attempts left.
pub open spec fn spec_chargeable(s: SubscriptionView, token: Option<Seq<char>>) -> bool {
    token.is_some() && s.auto_renew && s.renewal_attempts < s.max_renewal_attempts
}

/// The charge to put to the gateway for a subscription, if it can be
/// charged automatically: its price, on the stored token, under the
/// merchant transaction id whose random part is `suffix`.
pub open spec fn spec_plan_renewal(
    s: SubscriptionView,
    token: Option<Seq<char>>,
    suffix: u128,
) -> Option<RenewalChargeView> {
    if spec_chargeable(s, token) {
        Some(
            RenewalChargeView {
                subscription_id: s.id,
                user_id: s.user_id,
                token: token.unwrap(),
                amount: s.price,
                merchant_transaction_id: renewal_prefix() + simple_hex(suffix),
            },
        )
    } else {
        None
    }
}

/// The mailbox after the renewal of the subscription `id` was started at
/// `now`, and the charge to make. A subscription that cannot be charged
/// automatically has its user notified at once.
pub open spec fn spec_start_renewal(
    subs: Seq<SubscriptionView>,
    tokens: Seq<RecurringPaymentView>,
    notes: Seq<NotificationView>,
    id: RecordId,
    now: Timestamp,
    suffix: u128,
    notification_id: RecordId,
) -> (Seq<NotificationView>, Result<Option<RenewalChargeView>, BillingError>) {
    let i = sub_index(subs, id);
    if i >= subs.len() {
        (notes, Err(BillingError::SubscriptionNotFound))
    } else {
        match spec_plan_renewal(subs[i], spec_token_of(tokens, subs[i].user_id), suffix) {
            Some(charge) => (notes, Ok(Some(charge))),
            None => (
                notes.push(spec_renewal_notification(notification_id, subs[i].user_id, id, now)),
                Ok(None),
            ),
        }
    }
}

/// The subscriptions after a failed attempt to renew `id` was counted. A
/// counter that cannot grow, and a subscription that is gone, leave the
/// ledger as it was.
pub open spec fn spec_count_failure(
    subs: Seq<SubscriptionView>,
    id: RecordId,
    now: Timestamp,
) -> Seq<SubscriptionView> {
    match spec_ledger_record_failed_renewal(subs, id, now) {
        Ok(v) => v,
        Err(_) => subs,
    }
}

/// The ledgers after the gateway's answer to a charge was recorded at
/// `now`, and what became of the renewal.
///
/// A charge that succeeded renews the subscription from its present end
/// date. Any other outcome leaves the status and the dates of the
/// subscription alone: the attempt is counted and the user is notified.
pub open spec fn spec_finish_renewal(
    subs: Seq<SubscriptionView>,
    notes: Seq<NotificationView>,
    charge: RenewalChargeView,
    succeeded: bool,
    now: Timestamp,
    grace_period_days: u32,
    notification_id: RecordId,
) -> (Seq<SubscriptionView>, Seq<NotificationView>, RenewalResult) {
    if succeeded {
        match spec_ledger_renew(subs, charge.subscription_id, now, grace_period_days) {
            Ok(v) => (v, notes, RenewalResult::Renewed),
            Err(e) => (subs, notes, RenewalResult::RenewalRefused(e)),
        }
    } else {
        (
            spec_count_failure(subs, charge.subscription_id, now),
            notes.push(
                spec_renewal_notification(
                    notification_id,
                    charge.user_id,
                    charge.subscription_id,
                    now,
                ),
            ),
            RenewalResult::ManualRenewalRequested,
        )
    }
}

/// The charge to put to the gateway for a subscription, if it can be
/// charged automatically; see [`spec_plan_renewal`].
pub fn plan_renewal(subscription: &Subscription, token: Option<String>, suffix: u128) -> (r:
    Option<RenewalCharge>)
    ensures
        opt_charge_view(r) == spec_plan_renewal(subscription@, opt_view(token), suffix),
{
    match token {
        Some(token) => {
            if subscription.can_auto_renew() {
                Some(
                    RenewalCharge {
                        subscription_id: subscription.id,
                        user_id: subscription.user_id,
                        token,
                        amount: subscription.price,
                        merchant_transaction_id: renewal_transaction_id_from(suffix),
                    },
                )
            } else {
                None
            }
        },
        None => None,
    }
}

/// Starts the renewal of the subscription `id` at `now`: returns the
/// charge to make, or notifies the user where none can be made; see
/// [`spec_start_renewal`]. No ledger but the mailbox changes.
pub fn start_renewal_at(
    subscriptions: &SubscriptionLedger,
    tokens: &RecurringLedger,
    notifications: &mut NotificationMailbox,
    id: RecordId,
    now: Timestamp,
    suffix: u128,
    notification_id: RecordId,
) -> (r: Result<Option<RenewalCharge>, BillingError>)
    ensures
        spec_start_renewal(
            subscriptions@,
            tokens@,
            old(notifications)@,
            id,
            now,
            suffix,
            notification_id,
        ) == (
            final(notifications)@,
            match r {
                Ok(c) => Ok::<Option<RenewalChargeView>, BillingError>(opt_charge_view(c)),
                Err(e) => Err::<Option<RenewalChargeView>, BillingError>(e),
            },
        ),
{
    let subscription = match subscriptions.get_subscription(id) {
        Some(s) => s,
        None => {
            return Err(BillingError::SubscriptionNotFound);
        },
    };
    let token = tokens.get_recurring_token_by_user(subscription.user_id);
    match plan_renewal(subscription, token, suffix) {
        Some(charge) => Ok(Some(charge)),
        None => {
            notifications.create_manual_renewal_notification_at(
                subscription.user_id,
                id,
                notification_id,
                now,
            );
            Ok(None)
        },
    }
}

/// [`start_renewal_at`] at the present time, with a fresh merchant
/// transaction id and a fresh notification id.
pub fn start_renewal(
    subscriptions: &SubscriptionLedger,
    tokens: &RecurringLedger,
    notifications: &mut NotificationMailbox,
    id: RecordId,
) -> (r: Result<Option<RenewalCharge>, BillingError>)
    ensures
        exists|now: Timestamp, suffix: u128, notification_id: RecordId|
            #[trigger] spec_start_renewal(
                subscriptions@,
                tokens@,
                old(notifications)@,
                id,
                now,
                suffix,
                notification_id,
            ) == (
                final(notifications)@,
                match r {
                    Ok(c) => Ok::<Option<RenewalChargeView>, BillingError>(opt_charge_view(c)),
                    Err(e) => Err::<Option<RenewalChargeView>, BillingError>(e),
                },
            ),
{
    let now = current_time();
    let suffix = random_u128();
    let notification_id = RecordId::generate();
    start_renewal_at(subscriptions, tokens, notifications, id, now, suffix, notification_id)
}

/// Records at `now` whether a charge succeeded; see
/// [`spec_finish_renewal`].
pub fn record_charge_result_at(
    subscriptions: &mut SubscriptionLedger,
    notifications: &mut NotificationMailbox,
    charge: &RenewalCharge,
    succeeded: bool,
    now: Timestamp,
    grace_period_days: u32,
    notification_id: RecordId,
) -> (result: RenewalResult)
    ensures
        (final(subscriptions)@, final(notifications)@, result) == spec_finish_renewal(
            old(subscriptions)@,
            old(notifications)@,
            charge@,
            succeeded,
            now,
            grace_period_days,
            notification_id,
        ),
        old(subscriptions).wf() ==> final(subscriptions).wf(),
{
    if succeeded {
        match subscriptions.renew(charge.subscription_id, now, grace_period_days) {
            Ok(_) => RenewalResult::Renewed,
            Err(e) => RenewalResult::RenewalRefused(e),
        }
    } else {
        let _ = subscriptions.record_failed_renewal(charge.subscription_id, now);
        notifications.create_manual_renewal_notification_at(
            charge.user_id,
            charge.subscription_id,
            notification_id,
            now,
        );
        RenewalResult::ManualRenewalRequested
    }
}

/// Records at `now` what the gateway made of a charge: an answer counts as
/// success only if its result code stands for a completed payment, and no
/// answer never does.
pub fn finish_renewal_at(
    subscriptions: &mut SubscriptionLedger,
    notifications: &mut NotificationMailbox,
    charge: &RenewalCharge,
    outcome: &ChargeOutcome,
    now: Timestamp,
    grace_period_days: u32,
    notification_id: RecordId,
) -> (result: RenewalResult)
    ensures
        (final(subscriptions)@, final(notifications)@, result) == spec_finish_renewal(
            old(subscriptions)@,
            old(notifications)@,
            charge@,
            outcome.spec_succeeded(),
            now,
            grace_period_days,
            notification_id,
        ),
        old(subscriptions).wf() ==> final(subscriptions).wf(),
{
    let succeeded = outcome.succeeded();
    record_charge_result_at(
        subscriptions,
        notifications,
        charge,
        succeeded,
        now,
        grace_period_days,
        notification_id,
    )
}

/// [`finish_renewal_at`] at the present time, with a fresh notification
/// id.
pub fn finish_renewal(
    subscriptions: &mut SubscriptionLedger,
    notifications: &mut NotificationMailbox,
    charge: &RenewalCharge,
    outcome: &ChargeOutcome,
    grace_period_days: u32,
) -> (result: RenewalResult)
    ensures
        exists|now: Timestamp, notification_id: RecordId|
            (final(subscriptions)@, final(notifications)@, result)
                == #[trigger] spec_finish_renewal(
                old(subscriptions)@,
                old(notifications)@,
                charge@,
                outcome.spec_succeeded(),
                now,
                grace_period_days,
                notification_id,
            ),
        old(subscriptions).wf() ==> final(subscriptions).wf(),
{
    let now = current_time();
    let notification_id = RecordId::generate();
    finish_renewal_at(
        subscriptions,
        notifications,
        charge,
        outcome,
        now,
        grace_period_days,
        notification_id,
    )
}

/// The gateway's answer to one charge of a sweep, with the id to give the
/// notification that a failure leads to.
#[derive(Debug)]
pub struct ChargeAnswer {
    pub charge: RenewalCharge,
    pub outcome: ChargeOutcome,
    pub notification_id: RecordId,
}

/// An answer as a mathematical value.
pub struct ChargeAnswerView {
    pub charge: RenewalChargeView,
    pub succeeded: bool,
    pub notification_id: RecordId,
}

impl View for ChargeAnswer {
    type V = ChargeAnswerView;

    open spec fn view(&self) -> ChargeAnswerView {
        ChargeAnswerView {
            charge: self.charge@,
            succeeded: self.outcome.spec_succeeded(),
            notification_id: self.notification_id,
        }
    }
}

/// The views of the answers of a sweep.
pub open spec fn answers_view(answers: Seq<ChargeAnswer>) -> Seq<ChargeAnswerView> {
    Seq::new(answers.len(), |i: int| answers[i]@)
}

/// The ledgers after the answers to the charges of a sweep were recorded
/// at `now`, one after the other.
pub open spec fn spec_record_answers(
    subs: Seq<SubscriptionView>,
    notes: Seq<NotificationView>,
    answers: Seq<ChargeAnswerView>,
    now: Timestamp,
    grace_period_days: u32,
) -> (Seq<SubscriptionView>, Seq<NotificationView>)
    decreases answers.len(),
{
    if answers.len() == 0 {
        (subs, notes)
    } else {
        let (before_subs, before_notes) = spec_record_answers(
            subs,
            notes,
            answers.drop_last(),
            now,
            grace_period_days,
        );
        let last = answers.last();
        let (after_subs, after_notes, _) = spec_finish_renewal(
            before_subs,
            before_notes,
            last.charge,
            last.succeeded,
            now,
            grace_period_days,
            last.notification_id,
        );
        (after_subs, after_notes)
    }
}

/// Ends a sweep at `now`: records the answers to its charges, and only
/// then suspends what is unpaid beyond its grace period, so that a
/// subscription that was renewed in this sweep is judged by its new dates.
/// Returns the ids of the subscriptions that were suspended.
pub fn complete_sweep_at(
    subscriptions: &mut SubscriptionLedger,
    notifications: &mut NotificationMailbox,
    answers: &Vec<ChargeAnswer>,
    now: Timestamp,
    grace_period_days: u32,
) -> (suspended: Vec<RecordId>)
    ensures
        ({
            let (renewed, mailbox) = spec_record_answers(
                old(subscriptions)@,
                old(notifications)@,
                answers_view(answers@),
                now,
                grace_period_days,
            );
            &&& final(notifications)@ == mailbox
            &&& final(subscriptions)@ == spec_suspend_expired(renewed, now)
            &&& suspended@ == spec_expired_unpaid_ids(renewed, now)
        }),
        old(subscriptions).wf() ==> final(subscriptions).wf(),
{
    let n = answers.len();
    let mut i: usize = 0;
    proof {
        assert(answers_view(answers@).take(0) =~= Seq::<ChargeAnswerView>::empty());
    }
    while i < n
        invariant
            n == answers@.len(),
            i <= n,
            (subscriptions@, notifications@) == spec_record_answers(
                old(subscriptions)@,
                old(notifications)@,
                answers_view(answers@).take(i as int),
                now,
                grace_period_days,
            ),
            old(subscriptions).wf() ==> subscriptions.wf(),
        decreases n - i,
    {
        proof {
            let next = answers_view(answers@).take(i + 1);
            assert(next.drop_last() =~= answers_view(answers@).take(i as int));
            assert(next.last() == answers@[i as int]@);
        }
        let answer = &answers[i];
        let succeeded = answer.outcome.succeeded();
        let _ = record_charge_result_at(
            subscriptions,
            notifications,
            &answer.charge,
            succeeded,
            now,
            grace_period_days,
            answer.notification_id,
        );
        i += 1;
    }
    proof {
        assert(answers_view(answers@).take(n as int) =~= answers_view(answers@));
    }
    subscriptions.suspend_expired_unpaid(now)
}

/// Without a stored token no charge is ever planned: the user is notified
/// and no subscription is touched.
pub proof fn no_token_means_no_charge(
    subs: Seq<SubscriptionView>,
    tokens: Seq<RecurringPaymentView>,
    notes: Seq<NotificationView>,
    id: RecordId,
    now: Timestamp,
    suffix: u128,
    notification_id: RecordId,
)
    requires
        has_subscription(subs, id),
        spec_token_of(tokens, subs[sub_index(subs, id)].user_id).is_none(),
    ensures
        spec_start_renewal(subs, tokens, notes, id, now, suffix, notification_id).1 == Ok::<
            Option<RenewalChargeView>,
            BillingError,
        >(None),
        spec_start_renewal(subs, tokens, notes, id, now, suffix, notification_id).0 == notes.push(
            spec_renewal_notification(
                notification_id,
                subs[sub_index(subs, id)].user_id,
                id,
                now,
            ),
        ),
{
}

/// A charge that did not succeed leaves the status and the dates of every
/// subscription alone; only the count of attempts of the one subscription
/// may grow. The user is notified.
pub proof fn failed_charge_keeps_status(
    subs: Seq<SubscriptionView>,
    notes: Seq<NotificationView>,
    charge: RenewalChargeView,
    now: Timestamp,
    grace_period_days: u32,
    notification_id: RecordId,
)
    ensures
        ({
            let (after, mailbox, result) = spec_finish_renewal(
                subs,
                notes,
                charge,
                false,
                now,
                grace_period_days,
                notification_id,
            );
            &&& result == RenewalResult::ManualRenewalRequested
            &&& mailbox.len() == notes.len() + 1
            &&& after.len() == subs.len()
            &&& forall|i: int|
                0 <= i < subs.len() ==> (#[trigger] after[i]).status == subs[i].status
                    && after[i].start_date == subs[i].start_date && after[i].end_date
                    == subs[i].end_date && after[i].grace_end_date == subs[i].grace_end_date
        }),
{
    lemma_sub_index(subs, charge.subscription_id);
    let after = spec_count_failure(subs, charge.subscription_id, now);
    assert forall|i: int| 0 <= i < subs.len() implies (#[trigger] after[i]).status
        == subs[i].status && after[i].start_date == subs[i].start_date && after[i].end_date
        == subs[i].end_date && after[i].grace_end_date == subs[i].grace_end_date by {}
}

/// An unanswered charge is never taken for a success.
pub proof fn unanswered_charge_is_a_failure()
    ensures
        !ChargeOutcome::Unanswered.spec_succeeded(),
{
}

/// A subscription that was renewed in a sweep is not suspended at the end
/// of that sweep, as long as the sweep runs within the grace period that
/// the renewal opened.
pub proof fn renewed_subscription_is_not_suspended(
    s: SubscriptionView,
    now: Timestamp,
    grace_period_days: u32,
)
    requires
        spec_renew(s, now, grace_period_days).is_ok(),
        now.millis <= spec_renew(s, now, grace_period_days).unwrap().grace_end_date.unwrap().millis,
    ensures
        !spec_expired_unpaid(spec_renew(s, now, grace_period_days).unwrap(), now),
        crate::subscription_ledger::spec_swept(spec_renew(s, now, grace_period_days).unwrap(), now)
            == spec_renew(s, now, grace_period_days).unwrap(),
{
}

/// A subscription whose end date has passed while its grace period has
/// not is due for renewal but is not suspended.
pub proof fn due_within_grace_is_not_suspended(s: SubscriptionView, now: Timestamp)
    requires
        s.grace_end_date.is_some(),
        now.millis <= s.grace_end_date.unwrap().millis,
    ensures
        crate::subscription_ledger::spec_swept(s, now) == s,
{
}

/// Suspending what is unpaid is idempotent: a second pass at the same
/// instant finds nothing left to suspend.
pub proof fn suspension_is_idempotent(subs: Seq<SubscriptionView>, now: Timestamp)
    ensures
        spec_suspend_expired(spec_suspend_expired(subs, now), now) == spec_suspend_expired(
            subs,
            now,
        ),
{
    assert(spec_suspend_expired(spec_suspend_expired(subs, now), now) =~= spec_suspend_expired(
        subs,
        now,
    ));
}

} // verus!
