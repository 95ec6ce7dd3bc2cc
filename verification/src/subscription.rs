//! Subscriptions and their lifecycle.
//!
//! A subscription is created `Pending`, becomes `Active` with its first
//! completed payment, and is extended by each renewal. Past its end date it
//! is in `Grace`; past the end of the grace period it is `Expired`, or
//! `Suspended` by the renewal sweep. `Expired` and `Cancelled` are final.
//!
//! Every transition is a function of the subscription and of the present
//! instant, and says so in its contract. Each comes in two forms: one that
//! takes the instant, and one that reads the clock.

use vstd::prelude::*;
use vstd::string::*;
use crate::common::{opt_view, PaymentMethod, SubscriptionPlan};
use crate::error::BillingError;
use crate::ids::RecordId;
use crate::money::{
    decimal_difference, decimal_div, decimal_mul, decimal_product, decimal_quotient, decimal_sub,
    Amount,
};
use crate::time::{current_time, spec_whole_days, Timestamp};

verus! {

/// The status of a subscription.
#[derive(Clone, Copy, Debug, PartialEq, Eq, Structural)]
pub enum SubscriptionStatus {
    /// Created, not yet paid for.
    Pending,
    Active,
    /// Past its end date, still usable while renewal is retried.
    Grace,
    Expired,
    /// Paused by the subscriber, or stopped by the sweep for want of payment.
    Suspended,
    Cancelled,
}

impl SubscriptionStatus {
    /// Whether no transition leaves the status.
    pub open spec fn spec_is_terminal(self) -> bool {
        self == SubscriptionStatus::Expired || self == SubscriptionStatus::Cancelled
    }

    /// Whether the subscription is running: active or in its grace period.
    pub open spec fn spec_is_running(self) -> bool {
        self == SubscriptionStatus::Active || self == SubscriptionStatus::Grace
    }

    /// Whether no transition leaves the status.
    pub fn is_terminal(&self) -> (b: bool)
        ensures
            b == self.spec_is_terminal(),
    {
        match self {
            SubscriptionStatus::Expired => true,
            SubscriptionStatus::Cancelled => true,
            _ => false,
        }
    }

    /// Whether the subscription is running: active or in its grace period.
    pub fn is_running(&self) -> (b: bool)
        ensures
            b == self.spec_is_running(),
    {
        match self {
            SubscriptionStatus::Active => true,
            SubscriptionStatus::Grace => true,
            _ => false,
        }
    }
}

/// A subscription as stored.
#[derive(Debug)]
pub struct Subscription {
    pub id: RecordId,
    pub user_id: RecordId,
    pub plan: SubscriptionPlan,
    pub status: SubscriptionStatus,
    pub price: Amount,
    pub currency: String,
    pub start_date: Option<Timestamp>,
    pub end_date: Option<Timestamp>,
    /// The end date plus the grace period.
    pub grace_end_date: Option<Timestamp>,
    /// Where the first period starts, when it is not the time of activation.
    pub billing_cycle_anchor: Option<Timestamp>,
    pub renewal_attempts: u32,
    pub max_renewal_attempts: u32,
    pub auto_renew: bool,
    pub paused_at: Option<Timestamp>,
    /// The method of the last completed payment.
    pub payment_method: Option<PaymentMethod>,
    /// The brand of the last completed payment, as the gateway named it.
    pub payment_brand: Option<String>,
    pub created_at: Timestamp,
    pub updated_at: Timestamp,
}

/// A subscription as a mathematical value.
pub struct SubscriptionView {
    pub id: RecordId,
    pub user_id: RecordId,
    pub plan: SubscriptionPlan,
    pub status: SubscriptionStatus,
    pub price: Amount,
    pub currency: Seq<char>,
    pub start_date: Option<Timestamp>,
    pub end_date: Option<Timestamp>,
    pub grace_end_date: Option<Timestamp>,
    pub billing_cycle_anchor: Option<Timestamp>,
    pub renewal_attempts: u32,
    pub max_renewal_attempts: u32,
    pub auto_renew: bool,
    pub paused_at: Option<Timestamp>,
    pub payment_method: Option<PaymentMethod>,
    pub payment_brand: Option<Seq<char>>,
    pub created_at: Timestamp,
    pub updated_at: Timestamp,
}

impl View for Subscription {
    type V = SubscriptionView;

    open spec fn view(&self) -> SubscriptionView {
        SubscriptionView {
            id: self.id,
            user_id: self.user_id,
            plan: self.plan,
            status: self.status,
            price: self.price,
            currency: self.currency@,
            start_date: self.start_date,
            end_date: self.end_date,
            grace_end_date: self.grace_end_date,
            billing_cycle_anchor: self.billing_cycle_anchor,
            renewal_attempts: self.renewal_attempts,
            max_renewal_attempts: self.max_renewal_attempts,
            auto_renew: self.auto_renew,
            paused_at: self.paused_at,
            payment_method: self.payment_method,
            payment_brand: opt_view(self.payment_brand),
            created_at: self.created_at,
            updated_at: self.updated_at,
        }
    }
}

impl SubscriptionView {
    /// The invariant of a subscription: once it has left `Pending` for a
    /// running, suspended or expired state it has its three dates, and
    /// wherever two of them are set they are in order: start, end, end of
    /// grace.
    pub open spec fn wf(self) -> bool {
        &&& (self.status == SubscriptionStatus::Active || self.status == SubscriptionStatus::Grace
            || self.status == SubscriptionStatus::Suspended || self.status
            == SubscriptionStatus::Expired) ==> self.start_date.is_some()
            && self.end_date.is_some() && self.grace_end_date.is_some()
        &&& (self.start_date.is_some() && self.end_date.is_some()) ==> self.start_date.unwrap().millis
            <= self.end_date.unwrap().millis
        &&& (self.end_date.is_some() && self.grace_end_date.is_some())
            ==> self.end_date.unwrap().millis <= self.grace_end_date.unwrap().millis
    }
}

/// What a caller asks for when it creates a subscription.
#[derive(Clone, Copy, Debug, PartialEq, Eq, Structural)]
pub struct CreateSubscriptionRequest {
    pub user_id: RecordId,
    pub plan: SubscriptionPlan,
    /// Whether the subscription renews by itself; yes when absent.
    pub auto_renew: Option<bool>,
    pub billing_cycle_anchor: Option<Timestamp>,
}

/// Whether a call that returned `r` and left the subscription as `after`
/// did what `expected` asks of a subscription that was `before`: on success
/// the subscription is the expected one; on refusal the cause is the
/// expected one and the subscription is untouched.
pub open spec fn subscription_outcome(
    expected: Result<SubscriptionView, BillingError>,
    r: Result<(), BillingError>,
    before: SubscriptionView,
    after: SubscriptionView,
) -> bool {
    match expected {
        Ok(v) => r.is_ok() && after == v,
        Err(e) => r == Err::<(), BillingError>(e) && after == before,
    }
}

/// The subscription that a request creates: `Pending`, without dates, at
/// the price of its plan in `ZAR`, with five renewal attempts allowed.
pub open spec fn spec_new_subscription(
    request: CreateSubscriptionRequest,
    id: RecordId,
    now: Timestamp,
) -> SubscriptionView {
    SubscriptionView {
        id,
        user_id: request.user_id,
        plan: request.plan,
        status: SubscriptionStatus::Pending,
        price: request.plan.spec_price(),
        currency: "ZAR"@,
        start_date: None,
        end_date: None,
        grace_end_date: None,
        billing_cycle_anchor: request.billing_cycle_anchor,
        renewal_attempts: 0,
        max_renewal_attempts: 5,
        auto_renew: request.auto_renew != Some(false),
        paused_at: None,
        payment_method: None,
        payment_brand: None,
        created_at: now,
        updated_at: now,
    }
}

/// Activation at `now`: only a `Pending` subscription can be activated. Its
/// period starts at the billing-cycle anchor, or at `now` without one, and
/// lasts as long as the plan; the grace period follows.
pub open spec fn spec_activate(s: SubscriptionView, now: Timestamp, grace_period_days: u32) -> Result<
    SubscriptionView,
    BillingError,
> {
    if s.status != SubscriptionStatus::Pending {
        Err(BillingError::NotPending)
    } else {
        let start = match s.billing_cycle_anchor {
            Some(anchor) => anchor,
            None => now,
        };
        match start.spec_checked_add_days(s.plan.spec_duration_days()) {
            None => Err(BillingError::DateOutOfRange),
            Some(end) => match end.spec_checked_add_days(grace_period_days as int) {
                None => Err(BillingError::DateOutOfRange),
                Some(grace_end) => Ok(
                    SubscriptionView {
                        status: SubscriptionStatus::Active,
                        start_date: Some(start),
                        end_date: Some(end),
                        grace_end_date: Some(grace_end),
                        renewal_attempts: 0,
                        updated_at: now,
                        ..s
                    },
                ),
            },
        }
    }
}

/// Renewal at `now`: a running subscription gains one period of its plan,
/// counted from its present end date, whenever the renewal happens.
pub open spec fn spec_renew(s: SubscriptionView, now: Timestamp, grace_period_days: u32) -> Result<
    SubscriptionView,
    BillingError,
> {
    if !s.status.spec_is_running() {
        Err(BillingError::NotActiveOrGrace)
    } else {
        match s.end_date {
            None => Err(BillingError::NoEndDate),
            Some(old_end) => match old_end.spec_checked_add_days(s.plan.spec_duration_days()) {
                None => Err(BillingError::DateOutOfRange),
                Some(end) => match end.spec_checked_add_days(grace_period_days as int) {
                    None => Err(BillingError::DateOutOfRange),
                    Some(grace_end) => Ok(
                        SubscriptionView {
                            status: SubscriptionStatus::Active,
                            end_date: Some(end),
                            grace_end_date: Some(grace_end),
                            renewal_attempts: 0,
                            updated_at: now,
                            ..s
                        },
                    ),
                },
            },
        }
    }
}

/// An optional date moved by `days` days; `Err` when the date is there and
/// cannot be moved that far.
pub open spec fn spec_shift_days(d: Option<Timestamp>, days: int) -> Result<Option<Timestamp>, ()> {
    match d {
        None => Ok(None),
        Some(t) => match t.spec_checked_add_days(days) {
            None => Err(()),
            Some(u) => Ok(Some(u)),
        },
    }
}

/// An optional date moved by `delta` milliseconds; `Err` when the date is
/// there and cannot be moved that far.
pub open spec fn spec_shift_millis(d: Option<Timestamp>, delta: int) -> Result<
    Option<Timestamp>,
    (),
> {
    match d {
        None => Ok(None),
        Some(t) => match t.spec_checked_add_millis(delta) {
            None => Err(()),
            Some(u) => Ok(Some(u)),
        },
    }
}

/// Extension at `now`: the end date, and with it the end of grace, move
/// `duration_days` days on. A subscription without an end date keeps its
/// dates. A negative number of days is refused.
pub open spec fn spec_extend(s: SubscriptionView, duration_days: i64, now: Timestamp) -> Result<
    SubscriptionView,
    BillingError,
> {
    if duration_days < 0 {
        Err(BillingError::NegativeDuration)
    } else if s.end_date.is_none() {
        Ok(SubscriptionView { updated_at: now, ..s })
    } else {
        match (
            spec_shift_days(s.end_date, duration_days as int),
            spec_shift_days(s.grace_end_date, duration_days as int),
        ) {
            (Ok(end), Ok(grace_end)) => Ok(
                SubscriptionView { end_date: end, grace_end_date: grace_end, updated_at: now, ..s },
            ),
            _ => Err(BillingError::DateOutOfRange),
        }
    }
}

/// Pausing at `now`: only an active subscription can be paused.
pub open spec fn spec_pause(s: SubscriptionView, now: Timestamp) -> Result<
    SubscriptionView,
    BillingError,
> {
    if s.status != SubscriptionStatus::Active {
        Err(BillingError::NotActive)
    } else {
        Ok(
            SubscriptionView {
                status: SubscriptionStatus::Suspended,
                paused_at: Some(now),
                updated_at: now,
                ..s
            },
        )
    }
}

/// Resuming at `now`: only a suspended subscription can be resumed. Where
/// it was paused, its end date and end of grace move on by exactly the time
/// it was paused for. A pause that would have begun after `now` is refused.
pub open spec fn spec_resume(s: SubscriptionView, now: Timestamp) -> Result<
    SubscriptionView,
    BillingError,
> {
    if s.status != SubscriptionStatus::Suspended {
        Err(BillingError::NotSuspended)
    } else {
        let paused_for: int = match s.paused_at {
            Some(p) => now.millis - p.millis,
            None => 0,
        };
        if paused_for < 0 {
            Err(BillingError::DateOutOfRange)
        } else {
            match (
                spec_shift_millis(s.end_date, paused_for),
                spec_shift_millis(s.grace_end_date, paused_for),
            ) {
                (Ok(end), Ok(grace_end)) => Ok(
                    SubscriptionView {
                        status: SubscriptionStatus::Active,
                        end_date: end,
                        grace_end_date: grace_end,
                        paused_at: None,
                        updated_at: now,
                        ..s
                    },
                ),
                _ => Err(BillingError::DateOutOfRange),
            }
        }
    }
}

/// Suspension at `now` for want of payment: only a running subscription
/// can be suspended.
pub open spec fn spec_suspend(s: SubscriptionView, now: Timestamp) -> Result<
    SubscriptionView,
    BillingError,
> {
    if !s.status.spec_is_running() {
        Err(BillingError::NotActiveOrGrace)
    } else {
        Ok(SubscriptionView { status: SubscriptionStatus::Suspended, updated_at: now, ..s })
    }
}

/// Cancellation at `now`: any subscription that has not ended can be
/// cancelled, and stops renewing.
pub open spec fn spec_cancel(s: SubscriptionView, now: Timestamp) -> Result<
    SubscriptionView,
    BillingError,
> {
    if s.status.spec_is_terminal() {
        Err(BillingError::AlreadyTerminal)
    } else {
        Ok(
            SubscriptionView {
                status: SubscriptionStatus::Cancelled,
                auto_renew: false,
                updated_at: now,
                ..s
            },
        )
    }
}

/// What a change of plan or of billing date costs.
#[derive(Clone, Copy, Debug, PartialEq, Eq, Structural)]
pub struct ProrationCalculation {
    /// What is owed back for the unused days of the old plan.
    pub current_plan_refund: Amount,
    /// What the new plan costs from the effective date.
    pub new_plan_charge: Amount,
    /// Charge less refund.
    pub net_amount: Amount,
    pub effective_date: Timestamp,
    pub days_used: i64,
    pub days_remaining: i64,
}

/// The three amounts of a proration.
#[derive(Clone, Copy, Debug, PartialEq, Eq, Structural)]
pub struct ProratedAmounts {
    pub refund: Amount,
    pub charge: Amount,
    pub net: Amount,
}

/// The whole number `n` as an amount.
pub open spec fn spec_whole(n: int) -> Amount {
    Amount { mantissa: n as i128, scale: 0 }
}

/// The price of one day of a plan: its price divided by its days.
pub open spec fn spec_daily_rate(price: Amount, days: int) -> Option<Amount> {
    decimal_quotient(price, spec_whole(days))
}

/// The amounts of a change from `old_plan` to `new_plan` with
/// `days_remaining` days of the old plan unused: the refund is the old
/// daily rate times the unused days, the charge is the new daily rate times
/// the days of the new plan, and the net amount is charge less refund.
/// `None` when one of them cannot be computed.
pub open spec fn spec_prorate(
    old_plan: SubscriptionPlan,
    new_plan: SubscriptionPlan,
    days_remaining: int,
) -> Option<ProratedAmounts> {
    match (
        spec_daily_rate(old_plan.spec_price(), old_plan.spec_duration_days()),
        spec_daily_rate(new_plan.spec_price(), new_plan.spec_duration_days()),
    ) {
        (Some(old_rate), Some(new_rate)) => match (
            decimal_product(old_rate, spec_whole(days_remaining)),
            decimal_product(new_rate, spec_whole(new_plan.spec_duration_days())),
        ) {
            (Some(refund), Some(charge)) => match decimal_difference(charge, refund) {
                Some(net) => Some(ProratedAmounts { refund, charge, net }),
                None => None,
            },
            _ => None,
        },
        _ => None,
    }
}

/// What moving a billing date by `day_difference` days costs at `price` for
/// a plan of `plan_days` days: the daily rate times the days.
pub open spec fn spec_billing_date_charge(
    price: Amount,
    plan_days: int,
    day_difference: int,
) -> Option<Amount> {
    match spec_daily_rate(price, plan_days) {
        Some(rate) => decimal_product(rate, spec_whole(day_difference)),
        None => None,
    }
}

/// The end of grace that keeps its distance, in whole days, from an end
/// date that moves from `old_end` to `new_end`.
pub open spec fn spec_moved_grace_end(
    grace_end: Option<Timestamp>,
    old_end: Timestamp,
    new_end: Timestamp,
) -> Result<Option<Timestamp>, ()> {
    match grace_end {
        None => Ok(None),
        Some(g) => match new_end.spec_checked_add_days(spec_whole_days(g.millis - old_end.millis)) {
            None => Err(()),
            Some(moved) => Ok(Some(moved)),
        },
    }
}

/// Days of the present period used at `effective`, counted from the start
/// date and rounded toward zero.
pub open spec fn spec_days_used(start: Timestamp, effective: Timestamp) -> int {
    spec_whole_days(effective.millis - start.millis)
}

/// A change of plan that takes effect at `effective`, given the amounts it
/// costs. Only a running subscription with its dates can change plan. The
/// new period lasts one duration of the new plan from the effective date;
/// it may not end before the subscription started.
pub open spec fn spec_apply_plan_change(
    s: SubscriptionView,
    new_plan: SubscriptionPlan,
    effective: Timestamp,
    now: Timestamp,
    amounts: Option<ProratedAmounts>,
) -> Result<(SubscriptionView, ProrationCalculation), BillingError> {
    if !s.status.spec_is_running() {
        Err(BillingError::NotActiveOrGrace)
    } else if s.start_date.is_none() || s.end_date.is_none() {
        Err(BillingError::NoEndDate)
    } else if amounts.is_none() {
        Err(BillingError::AmountOutOfRange)
    } else {
        let start = s.start_date.unwrap();
        let days_used = spec_days_used(start, effective);
        match effective.spec_checked_add_days(new_plan.spec_duration_days()) {
            None => Err(BillingError::DateOutOfRange),
            Some(end) => if end.millis < start.millis {
                Err(BillingError::DateOutOfRange)
            } else {
                match spec_moved_grace_end(s.grace_end_date, s.end_date.unwrap(), end) {
                    Err(_) => Err(BillingError::DateOutOfRange),
                    Ok(grace_end) => Ok(
                        (
                            SubscriptionView {
                                plan: new_plan,
                                price: new_plan.spec_price(),
                                end_date: Some(end),
                                grace_end_date: grace_end,
                                updated_at: now,
                                ..s
                            },
                            ProrationCalculation {
                                current_plan_refund: amounts.unwrap().refund,
                                new_plan_charge: amounts.unwrap().charge,
                                net_amount: amounts.unwrap().net,
                                effective_date: effective,
                                days_used: days_used as i64,
                                days_remaining: (s.plan.spec_duration_days() - days_used) as i64,
                            },
                        ),
                    ),
                }
            },
        }
    }
}

/// The instant a change takes effect: the one named, or `now`.
pub open spec fn spec_effective(effective_date: Option<Timestamp>, now: Timestamp) -> Timestamp {
    match effective_date {
        Some(e) => e,
        None => now,
    }
}

/// Days of the present period left at `effective`; the whole period for a
/// subscription that has no start date.
pub open spec fn spec_days_remaining(s: SubscriptionView, effective: Timestamp) -> int {
    match s.start_date {
        Some(start) => s.plan.spec_duration_days() - spec_days_used(start, effective),
        None => s.plan.spec_duration_days(),
    }
}

/// A change of plan at `now`: [`spec_apply_plan_change`] with the amounts
/// of [`spec_prorate`] for the days left at the effective date.
pub open spec fn spec_change_plan(
    s: SubscriptionView,
    new_plan: SubscriptionPlan,
    effective_date: Option<Timestamp>,
    now: Timestamp,
) -> Result<(SubscriptionView, ProrationCalculation), BillingError> {
    let effective = spec_effective(effective_date, now);
    spec_apply_plan_change(
        s,
        new_plan,
        effective,
        now,
        spec_prorate(s.plan, new_plan, spec_days_remaining(s, effective)),
    )
}

/// A change of the billing date to `new_date` at `now`, given what it
/// costs. Only an active subscription with an end date can change it. The
/// end date becomes `new_date`, which may not lie before the start date,
/// and the billing cycle is anchored there.
pub open spec fn spec_apply_billing_date_change(
    s: SubscriptionView,
    new_date: Timestamp,
    now: Timestamp,
    charge: Option<Amount>,
) -> Result<(SubscriptionView, ProrationCalculation), BillingError> {
    if s.status != SubscriptionStatus::Active {
        Err(BillingError::NotActive)
    } else if s.end_date.is_none() {
        Err(BillingError::NoEndDate)
    } else if charge.is_none() {
        Err(BillingError::AmountOutOfRange)
    } else if s.start_date.is_some() && new_date.millis < s.start_date.unwrap().millis {
        Err(BillingError::DateOutOfRange)
    } else {
        let current_end = s.end_date.unwrap();
        match spec_moved_grace_end(s.grace_end_date, current_end, new_date) {
            Err(_) => Err(BillingError::DateOutOfRange),
            Ok(grace_end) => Ok(
                (
                    SubscriptionView {
                        end_date: Some(new_date),
                        grace_end_date: grace_end,
                        billing_cycle_anchor: Some(new_date),
                        updated_at: now,
                        ..s
                    },
                    ProrationCalculation {
                        current_plan_refund: Amount { mantissa: 0, scale: 0 },
                        new_plan_charge: charge.unwrap(),
                        net_amount: charge.unwrap(),
                        effective_date: new_date,
                        days_used: spec_whole_days(current_end.millis - now.millis) as i64,
                        days_remaining: spec_whole_days(new_date.millis - now.millis) as i64,
                    },
                ),
            ),
        }
    }
}

/// By how many whole days, as seen from `now`, `new_date` lies after the
/// end date; zero for a subscription without an end date.
pub open spec fn spec_day_difference(s: SubscriptionView, new_date: Timestamp, now: Timestamp) -> int {
    match s.end_date {
        Some(end) => spec_whole_days(new_date.millis - now.millis) - spec_whole_days(
            end.millis - now.millis,
        ),
        None => 0,
    }
}

/// A change of the billing date at `now`: [`spec_apply_billing_date_change`]
/// with the charge of [`spec_billing_date_charge`].
pub open spec fn spec_change_billing_date(
    s: SubscriptionView,
    new_date: Timestamp,
    now: Timestamp,
) -> Result<(SubscriptionView, ProrationCalculation), BillingError> {
    spec_apply_billing_date_change(
        s,
        new_date,
        now,
        spec_billing_date_charge(
            s.price,
            s.plan.spec_duration_days(),
            spec_day_difference(s, new_date, now),
        ),
    )
}

/// Whether a call that returned `r` and left the subscription as `after`
/// did what `expected` asks of a subscription that was `before`.
pub open spec fn proration_outcome(
    expected: Result<(SubscriptionView, ProrationCalculation), BillingError>,
    r: Result<ProrationCalculation, BillingError>,
    before: SubscriptionView,
    after: SubscriptionView,
) -> bool {
    match expected {
        Ok((v, p)) => r == Ok::<ProrationCalculation, BillingError>(p) && after == v,
        Err(e) => r == Err::<ProrationCalculation, BillingError>(e) && after == before,
    }
}

/// One more failed renewal counted at `now`.
pub open spec fn spec_increment_renewal_attempt(s: SubscriptionView, now: Timestamp) -> Result<
    SubscriptionView,
    BillingError,
> {
    if s.renewal_attempts == u32::MAX {
        Err(BillingError::CounterExhausted)
    } else {
        Ok(
            SubscriptionView {
                renewal_attempts: (s.renewal_attempts + 1) as u32,
                updated_at: now,
                ..s
            },
        )
    }
}

/// The count of failed renewals cleared at `now`.
pub open spec fn spec_reset_renewal_attempts(s: SubscriptionView, now: Timestamp) -> SubscriptionView {
    SubscriptionView { renewal_attempts: 0, updated_at: now, ..s }
}

/// The method and brand of the last completed payment recorded at `now`.
pub open spec fn spec_set_payment_details(
    s: SubscriptionView,
    method: PaymentMethod,
    brand: Option<Seq<char>>,
    now: Timestamp,
) -> SubscriptionView {
    SubscriptionView { payment_method: Some(method), payment_brand: brand, updated_at: now, ..s }
}

/// Whole days from `now` to an optional date, rounded toward zero.
pub open spec fn spec_days_until(d: Option<Timestamp>, now: Timestamp) -> Option<i64> {
    match d {
        Some(t) => Some(spec_whole_days(t.millis - now.millis) as i64),
        None => None,
    }
}

/// Whether the end date of `s` has passed at `now`. The boundary instant
/// itself still belongs to the period.
pub open spec fn spec_is_due(s: SubscriptionView, now: Timestamp) -> bool {
    s.end_date.is_some() && now.millis > s.end_date.unwrap().millis
}

/// Whether the grace period of `s` has passed at `now`. The boundary
/// instant itself still belongs to the grace period.
pub open spec fn spec_is_past_grace(s: SubscriptionView, now: Timestamp) -> bool {
    s.grace_end_date.is_some() && now.millis > s.grace_end_date.unwrap().millis
}

/// Whether `s` is in its grace period at `now`: by status, or active past
/// its end date.
pub open spec fn spec_is_in_grace_period(s: SubscriptionView, now: Timestamp) -> bool {
    s.status == SubscriptionStatus::Grace || (s.status == SubscriptionStatus::Active
        && spec_is_due(s, now))
}

/// The status of `s` brought up to date at `now`: an active subscription
/// past its end date enters its grace period, and one in its grace period
/// past the end of grace expires. One call takes one step.
pub open spec fn spec_update_status_based_on_dates(
    s: SubscriptionView,
    now: Timestamp,
    grace_period_days: u32,
) -> Result<SubscriptionView, BillingError> {
    if s.status == SubscriptionStatus::Active && spec_is_due(s, now) {
        if s.grace_end_date.is_some() {
            Ok(SubscriptionView { status: SubscriptionStatus::Grace, updated_at: now, ..s })
        } else {
            match s.end_date.unwrap().spec_checked_add_days(grace_period_days as int) {
                None => Err(BillingError::DateOutOfRange),
                Some(grace_end) => Ok(
                    SubscriptionView {
                        status: SubscriptionStatus::Grace,
                        grace_end_date: Some(grace_end),
                        updated_at: now,
                        ..s
                    },
                ),
            }
        }
    } else if s.status == SubscriptionStatus::Grace && spec_is_past_grace(s, now) {
        Ok(SubscriptionView { status: SubscriptionStatus::Expired, updated_at: now, ..s })
    } else {
        Ok(s)
    }
}

impl Clone for Subscription {
    fn clone(&self) -> (c: Self)
        ensures
            c@ == self@,
    {
        Subscription {
            id: self.id,
            user_id: self.user_id,
            plan: self.plan,
            status: self.status,
            price: self.price,
            currency: self.currency.clone(),
            start_date: self.start_date,
            end_date: self.end_date,
            grace_end_date: self.grace_end_date,
            billing_cycle_anchor: self.billing_cycle_anchor,
            renewal_attempts: self.renewal_attempts,
            max_renewal_attempts: self.max_renewal_attempts,
            auto_renew: self.auto_renew,
            paused_at: self.paused_at,
            payment_method: self.payment_method,
            payment_brand: self.payment_brand.clone(),
            created_at: self.created_at,
            updated_at: self.updated_at,
        }
    }
}

/// `d` moved by `days` days, with the refusal spelt out.
fn shift_days(d: Option<Timestamp>, days: i64) -> (r: Result<Option<Timestamp>, ()>)
    ensures
        r == spec_shift_days(d, days as int),
{
    match d {
        None => Ok(None),
        Some(t) => match t.checked_add_days(days) {
            None => Err(()),
            Some(u) => Ok(Some(u)),
        },
    }
}

/// `d` moved by `delta` milliseconds, with the refusal spelt out.
fn shift_millis(d: Option<Timestamp>, delta: i128) -> (r: Result<Option<Timestamp>, ()>)
    requires
        -0x1_0000_0000_0000_0000 <= delta <= 0x1_0000_0000_0000_0000,
    ensures
        r == spec_shift_millis(d, delta as int),
{
    match d {
        None => Ok(None),
        Some(t) => match t.checked_add_millis(delta) {
            None => Err(()),
            Some(u) => Ok(Some(u)),
        },
    }
}

/// The daily rate of `price` over `days` days.
pub fn daily_rate(price: Amount, days: i64) -> (r: Option<Amount>)
    ensures
        r == spec_daily_rate(price, days as int),
        r matches Some(v) ==> v.wf(),
{
    decimal_div(price, Amount::from_whole(days))
}

/// The amounts of a change from `old_plan` to `new_plan` with
/// `days_remaining` days of the old plan unused; see [`spec_prorate`].
pub fn prorate(old_plan: SubscriptionPlan, new_plan: SubscriptionPlan, days_remaining: i64) -> (r:
    Option<ProratedAmounts>)
    ensures
        r == spec_prorate(old_plan, new_plan, days_remaining as int),
{
    let old_rate = daily_rate(old_plan.price(), old_plan.duration_days());
    let new_rate = daily_rate(new_plan.price(), new_plan.duration_days());
    match (old_rate, new_rate) {
        (Some(old_rate), Some(new_rate)) => {
            let refund = decimal_mul(old_rate, Amount::from_whole(days_remaining));
            let charge = decimal_mul(new_rate, Amount::from_whole(new_plan.duration_days()));
            match (refund, charge) {
                (Some(refund), Some(charge)) => match decimal_sub(charge, refund) {
                    Some(net) => Some(ProratedAmounts { refund, charge, net }),
                    None => None,
                },
                _ => None,
            }
        },
        _ => None,
    }
}

/// What moving a billing date by `day_difference` days costs; see
/// [`spec_billing_date_charge`].
pub fn billing_date_charge(price: Amount, plan_days: i64, day_difference: i64) -> (r: Option<
    Amount,
>)
    ensures
        r == spec_billing_date_charge(price, plan_days as int, day_difference as int),
{
    match daily_rate(price, plan_days) {
        Some(rate) => decimal_mul(rate, Amount::from_whole(day_difference)),
        None => None,
    }
}

/// The end of grace moved along with the end date; see
/// [`spec_moved_grace_end`].
fn moved_grace_end(grace_end: Option<Timestamp>, old_end: Timestamp, new_end: Timestamp) -> (r:
    Result<Option<Timestamp>, ()>)
    ensures
        r == spec_moved_grace_end(grace_end, old_end, new_end),
{
    match grace_end {
        None => Ok(None),
        Some(g) => match new_end.checked_add_days(g.days_since(old_end)) {
            None => Err(()),
            Some(moved) => Ok(Some(moved)),
        },
    }
}

/// Whole days from `now` to an optional date.
fn days_until(d: Option<Timestamp>, now: Timestamp) -> (r: Option<i64>)
    ensures
        r == spec_days_until(d, now),
{
    match d {
        Some(t) => Some(t.days_since(now)),
        None => None,
    }
}

impl Subscription {
    /// The subscription that `request` creates at `now` under the id given.
    pub fn new_at(request: CreateSubscriptionRequest, id: RecordId, now: Timestamp) -> (s:
        Subscription)
        ensures
            s@ == spec_new_subscription(request, id, now),
            s@.wf(),
    {
        let auto_renew = match request.auto_renew {
            Some(b) => b,
            None => true,
        };
        Subscription {
            id,
            user_id: request.user_id,
            plan: request.plan,
            status: SubscriptionStatus::Pending,
            price: request.plan.price(),
            currency: String::from_str("ZAR"),
            start_date: None,
            end_date: None,
            grace_end_date: None,
            billing_cycle_anchor: request.billing_cycle_anchor,
            renewal_attempts: 0,
            max_renewal_attempts: 5,
            auto_renew,
            paused_at: None,
            payment_method: None,
            payment_brand: None,
            created_at: now,
            updated_at: now,
        }
    }

    /// The subscription that `request` creates now, under a fresh random id.
    pub fn new(request: CreateSubscriptionRequest) -> (s: Subscription)
        ensures
            exists|id: RecordId, now: Timestamp|
                s@ == #[trigger] spec_new_subscription(request, id, now),
            s@.wf(),
    {
        let id = RecordId::generate();
        let now = current_time();
        Subscription::new_at(request, id, now)
    }

    /// Activates a pending subscription at `now`; see [`spec_activate`].
    pub fn activate_at(&mut self, now: Timestamp, grace_period_days: u32) -> (r: Result<
        (),
        BillingError,
    >)
        ensures
            subscription_outcome(
                spec_activate(old(self)@, now, grace_period_days),
                r,
                old(self)@,
                final(self)@,
            ),
            old(self)@.wf() ==> final(self)@.wf(),
    {
        if self.status != SubscriptionStatus::Pending {
            return Err(BillingError::NotPending);
        }
        let start = match self.billing_cycle_anchor {
            Some(anchor) => anchor,
            None => now,
        };
        let end = match start.checked_add_days(self.plan.duration_days()) {
            Some(end) => end,
            None => {
                return Err(BillingError::DateOutOfRange);
            },
        };
        let grace_end = match end.checked_add_days(grace_period_days as i64) {
            Some(grace_end) => grace_end,
            None => {
                return Err(BillingError::DateOutOfRange);
            },
        };
        self.status = SubscriptionStatus::Active;
        self.start_date = Some(start);
        self.end_date = Some(end);
        self.grace_end_date = Some(grace_end);
        self.renewal_attempts = 0;
        self.updated_at = now;
        Ok(())
    }

    /// [`Subscription::activate_at`] at the present time.
    pub fn activate(&mut self, grace_period_days: u32) -> (r: Result<(), BillingError>)
        ensures
            exists|now: Timestamp|
                subscription_outcome(
                    #[trigger] spec_activate(old(self)@, now, grace_period_days),
                    r,
                    old(self)@,
                    final(self)@,
                ),
            old(self)@.wf() ==> final(self)@.wf(),
    {
        let now = current_time();
        self.activate_at(now, grace_period_days)
    }

    /// Renews a running subscription at `now`; see [`spec_renew`].
    pub fn renew_at(&mut self, now: Timestamp, grace_period_days: u32) -> (r: Result<
        (),
        BillingError,
    >)
        ensures
            subscription_outcome(
                spec_renew(old(self)@, now, grace_period_days),
                r,
                old(self)@,
                final(self)@,
            ),
            old(self)@.wf() ==> final(self)@.wf(),
    {
        if !self.status.is_running() {
            return Err(BillingError::NotActiveOrGrace);
        }
        let old_end = match self.end_date {
            Some(old_end) => old_end,
            None => {
                return Err(BillingError::NoEndDate);
            },
        };
        let end = match old_end.checked_add_days(self.plan.duration_days()) {
            Some(end) => end,
            None => {
                return Err(BillingError::DateOutOfRange);
            },
        };
        let grace_end = match end.checked_add_days(grace_period_days as i64) {
            Some(grace_end) => grace_end,
            None => {
                return Err(BillingError::DateOutOfRange);
            },
        };
        self.status = SubscriptionStatus::Active;
        self.end_date = Some(end);
        self.grace_end_date = Some(grace_end);
        self.renewal_attempts = 0;
        self.updated_at = now;
        Ok(())
    }

    /// [`Subscription::renew_at`] at the present time.
    pub fn renew(&mut self, grace_period_days: u32) -> (r: Result<(), BillingError>)
        ensures
            exists|now: Timestamp|
                subscription_outcome(
                    #[trigger] spec_renew(old(self)@, now, grace_period_days),
                    r,
                    old(self)@,
                    final(self)@,
                ),
            old(self)@.wf() ==> final(self)@.wf(),
    {
        let now = current_time();
        self.renew_at(now, grace_period_days)
    }

    /// Moves the end date on by `duration_days` days; see [`spec_extend`].
    pub fn extend_at(&mut self, duration_days: i64, now: Timestamp) -> (r: Result<
        (),
        BillingError,
    >)
        ensures
            subscription_outcome(
                spec_extend(old(self)@, duration_days, now),
                r,
                old(self)@,
                final(self)@,
            ),
            old(self)@.wf() ==> final(self)@.wf(),
    {
        if duration_days < 0 {
            return Err(BillingError::NegativeDuration);
        }
        if self.end_date.is_none() {
            self.updated_at = now;
            return Ok(());
        }
        let end = shift_days(self.end_date, duration_days);
        let grace_end = shift_days(self.grace_end_date, duration_days);
        match (end, grace_end) {
            (Ok(end), Ok(grace_end)) => {
                self.end_date = end;
                self.grace_end_date = grace_end;
                self.updated_at = now;
                Ok(())
            },
            _ => Err(BillingError::DateOutOfRange),
        }
    }

    /// [`Subscription::extend_at`] at the present time.
    pub fn extend(&mut self, duration_days: i64) -> (r: Result<(), BillingError>)
        ensures
            exists|now: Timestamp|
                subscription_outcome(
                    #[trigger] spec_extend(old(self)@, duration_days, now),
                    r,
                    old(self)@,
                    final(self)@,
                ),
            old(self)@.wf() ==> final(self)@.wf(),
    {
        let now = current_time();
        self.extend_at(duration_days, now)
    }

    /// Pauses an active subscription at `now`; see [`spec_pause`].
    pub fn pause_at(&mut self, now: Timestamp) -> (r: Result<(), BillingError>)
        ensures
            subscription_outcome(spec_pause(old(self)@, now), r, old(self)@, final(self)@),
            old(self)@.wf() ==> final(self)@.wf(),
    {
        if self.status != SubscriptionStatus::Active {
            return Err(BillingError::NotActive);
        }
        self.status = SubscriptionStatus::Suspended;
        self.paused_at = Some(now);
        self.updated_at = now;
        Ok(())
    }

    /// [`Subscription::pause_at`] at the present time.
    pub fn pause(&mut self) -> (r: Result<(), BillingError>)
        ensures
            exists|now: Timestamp|
                subscription_outcome(
                    #[trigger] spec_pause(old(self)@, now),
                    r,
                    old(self)@,
                    final(self)@,
                ),
            old(self)@.wf() ==> final(self)@.wf(),
    {
        let now = current_time();
        self.pause_at(now)
    }

    /// Resumes a suspended subscription at `now`; see [`spec_resume`].
    pub fn resume_at(&mut self, now: Timestamp) -> (r: Result<(), BillingError>)
        ensures
            subscription_outcome(spec_resume(old(self)@, now), r, old(self)@, final(self)@),
            old(self)@.wf() ==> final(self)@.wf(),
    {
        if self.status != SubscriptionStatus::Suspended {
            return Err(BillingError::NotSuspended);
        }
        let paused_for: i128 = match self.paused_at {
            Some(p) => now.millis_since(p),
            None => 0,
        };
        if paused_for < 0 {
            return Err(BillingError::DateOutOfRange);
        }
        let end = shift_millis(self.end_date, paused_for);
        let grace_end = shift_millis(self.grace_end_date, paused_for);
        match (end, grace_end) {
            (Ok(end), Ok(grace_end)) => {
                self.status = SubscriptionStatus::Active;
                self.end_date = end;
                self.grace_end_date = grace_end;
                self.paused_at = None;
                self.updated_at = now;
                Ok(())
            },
            _ => Err(BillingError::DateOutOfRange),
        }
    }

    /// [`Subscription::resume_at`] at the present time.
    pub fn resume(&mut self) -> (r: Result<(), BillingError>)
        ensures
            exists|now: Timestamp|
                subscription_outcome(
                    #[trigger] spec_resume(old(self)@, now),
                    r,
                    old(self)@,
                    final(self)@,
                ),
            old(self)@.wf() ==> final(self)@.wf(),
    {
        let now = current_time();
        self.resume_at(now)
    }

    /// Suspends a running subscription at `now`; see [`spec_suspend`].
    pub fn suspend_at(&mut self, now: Timestamp) -> (r: Result<(), BillingError>)
        ensures
            subscription_outcome(spec_suspend(old(self)@, now), r, old(self)@, final(self)@),
            old(self)@.wf() ==> final(self)@.wf(),
    {
        if !self.status.is_running() {
            return Err(BillingError::NotActiveOrGrace);
        }
        self.status = SubscriptionStatus::Suspended;
        self.updated_at = now;
        Ok(())
    }

    /// [`Subscription::suspend_at`] at the present time.
    pub fn suspend(&mut self) -> (r: Result<(), BillingError>)
        ensures
            exists|now: Timestamp|
                subscription_outcome(
                    #[trigger] spec_suspend(old(self)@, now),
                    r,
                    old(self)@,
                    final(self)@,
                ),
            old(self)@.wf() ==> final(self)@.wf(),
    {
        let now = current_time();
        self.suspend_at(now)
    }

    /// Cancels a subscription at `now`; see [`spec_cancel`].
    pub fn cancel_at(&mut self, now: Timestamp) -> (r: Result<(), BillingError>)
        ensures
            subscription_outcome(spec_cancel(old(self)@, now), r, old(self)@, final(self)@),
            old(self)@.wf() ==> final(self)@.wf(),
    {
        if self.status.is_terminal() {
            return Err(BillingError::AlreadyTerminal);
        }
        self.status = SubscriptionStatus::Cancelled;
        self.auto_renew = false;
        self.updated_at = now;
        Ok(())
    }

    /// [`Subscription::cancel_at`] at the present time.
    pub fn cancel(&mut self) -> (r: Result<(), BillingError>)
        ensures
            exists|now: Timestamp|
                subscription_outcome(
                    #[trigger] spec_cancel(old(self)@, now),
                    r,
                    old(self)@,
                    final(self)@,
                ),
            old(self)@.wf() ==> final(self)@.wf(),
    {
        let now = current_time();
        self.cancel_at(now)
    }

    /// Changes the plan of a running subscription, given the amounts the
    /// change costs; see [`spec_apply_plan_change`].
    pub fn apply_plan_change_at(
        &mut self,
        new_plan: SubscriptionPlan,
        effective: Timestamp,
        now: Timestamp,
        amounts: Option<ProratedAmounts>,
    ) -> (r: Result<ProrationCalculation, BillingError>)
        ensures
            proration_outcome(
                spec_apply_plan_change(old(self)@, new_plan, effective, now, amounts),
                r,
                old(self)@,
                final(self)@,
            ),
            old(self)@.wf() ==> final(self)@.wf(),
    {
        if !self.status.is_running() {
            return Err(BillingError::NotActiveOrGrace);
        }
        let (start, old_end) = match (self.start_date, self.end_date) {
            (Some(start), Some(old_end)) => (start, old_end),
            _ => {
                return Err(BillingError::NoEndDate);
            },
        };
        let amounts = match amounts {
            Some(amounts) => amounts,
            None => {
                return Err(BillingError::AmountOutOfRange);
            },
        };
        let days_used = effective.days_since(start);
        let days_remaining = self.plan.duration_days() - days_used;
        let end = match effective.checked_add_days(new_plan.duration_days()) {
            Some(end) => end,
            None => {
                return Err(BillingError::DateOutOfRange);
            },
        };
        if end.millis < start.millis {
            return Err(BillingError::DateOutOfRange);
        }
        let grace_end = match moved_grace_end(self.grace_end_date, old_end, end) {
            Ok(grace_end) => grace_end,
            Err(_) => {
                return Err(BillingError::DateOutOfRange);
            },
        };
        self.plan = new_plan;
        self.price = new_plan.price();
        self.end_date = Some(end);
        self.grace_end_date = grace_end;
        self.updated_at = now;
        Ok(
            ProrationCalculation {
                current_plan_refund: amounts.refund,
                new_plan_charge: amounts.charge,
                net_amount: amounts.net,
                effective_date: effective,
                days_used,
                days_remaining,
            },
        )
    }

    /// Changes the plan of a running subscription at `now`, to take effect
    /// at `effective_date` or, without one, at `now`; see
    /// [`spec_change_plan`].
    pub fn change_plan_at(
        &mut self,
        new_plan: SubscriptionPlan,
        effective_date: Option<Timestamp>,
        now: Timestamp,
    ) -> (r: Result<ProrationCalculation, BillingError>)
        ensures
            proration_outcome(
                spec_change_plan(old(self)@, new_plan, effective_date, now),
                r,
                old(self)@,
                final(self)@,
            ),
            old(self)@.wf() ==> final(self)@.wf(),
    {
        let effective = match effective_date {
            Some(e) => e,
            None => now,
        };
        let days_remaining = match self.start_date {
            Some(start) => self.plan.duration_days() - effective.days_since(start),
            None => self.plan.duration_days(),
        };
        let amounts = prorate(self.plan, new_plan, days_remaining);
        self.apply_plan_change_at(new_plan, effective, now, amounts)
    }

    /// [`Subscription::change_plan_at`] at the present time.
    pub fn change_plan(&mut self, new_plan: SubscriptionPlan, effective_date: Option<Timestamp>) -> (r:
        Result<ProrationCalculation, BillingError>)
        ensures
            exists|now: Timestamp|
                proration_outcome(
                    #[trigger] spec_change_plan(old(self)@, new_plan, effective_date, now),
                    r,
                    old(self)@,
                    final(self)@,
                ),
            old(self)@.wf() ==> final(self)@.wf(),
    {
        let now = current_time();
        self.change_plan_at(new_plan, effective_date, now)
    }

    /// Moves the billing date of an active subscription, given what the
    /// move costs; see [`spec_apply_billing_date_change`].
    pub fn apply_billing_date_change_at(
        &mut self,
        new_billing_date: Timestamp,
        now: Timestamp,
        charge: Option<Amount>,
    ) -> (r: Result<ProrationCalculation, BillingError>)
        ensures
            proration_outcome(
                spec_apply_billing_date_change(old(self)@, new_billing_date, now, charge),
                r,
                old(self)@,
                final(self)@,
            ),
            old(self)@.wf() ==> final(self)@.wf(),
    {
        if self.status != SubscriptionStatus::Active {
            return Err(BillingError::NotActive);
        }
        let current_end = match self.end_date {
            Some(end) => end,
            None => {
                return Err(BillingError::NoEndDate);
            },
        };
        let charge = match charge {
            Some(charge) => charge,
            None => {
                return Err(BillingError::AmountOutOfRange);
            },
        };
        match self.start_date {
            Some(start) => {
                if new_billing_date.millis < start.millis {
                    return Err(BillingError::DateOutOfRange);
                }
            },
            None => {},
        }
        let grace_end = match moved_grace_end(self.grace_end_date, current_end, new_billing_date) {
            Ok(grace_end) => grace_end,
            Err(_) => {
                return Err(BillingError::DateOutOfRange);
            },
        };
        self.end_date = Some(new_billing_date);
        self.grace_end_date = grace_end;
        self.billing_cycle_anchor = Some(new_billing_date);
        self.updated_at = now;
        Ok(
            ProrationCalculation {
                current_plan_refund: Amount::zero(),
                new_plan_charge: charge,
                net_amount: charge,
                effective_date: new_billing_date,
                days_used: current_end.days_since(now),
                days_remaining: new_billing_date.days_since(now),
            },
        )
    }

    /// Moves the billing date of an active subscription at `now`; see
    /// [`spec_change_billing_date`].
    pub fn change_billing_date_at(&mut self, new_billing_date: Timestamp, now: Timestamp) -> (r:
        Result<ProrationCalculation, BillingError>)
        ensures
            proration_outcome(
                spec_change_billing_date(old(self)@, new_billing_date, now),
                r,
                old(self)@,
                final(self)@,
            ),
            old(self)@.wf() ==> final(self)@.wf(),
    {
        let day_difference = match self.end_date {
            Some(end) => new_billing_date.days_since(now) - end.days_since(now),
            None => 0,
        };
        let charge = billing_date_charge(self.price, self.plan.duration_days(), day_difference);
        self.apply_billing_date_change_at(new_billing_date, now, charge)
    }

    /// [`Subscription::change_billing_date_at`] at the present time.
    pub fn change_billing_date(&mut self, new_billing_date: Timestamp) -> (r: Result<
        ProrationCalculation,
        BillingError,
    >)
        ensures
            exists|now: Timestamp|
                proration_outcome(
                    #[trigger] spec_change_billing_date(old(self)@, new_billing_date, now),
                    r,
                    old(self)@,
                    final(self)@,
                ),
            old(self)@.wf() ==> final(self)@.wf(),
    {
        let now = current_time();
        self.change_billing_date_at(new_billing_date, now)
    }

    /// Counts one more failed renewal. Refused, with nothing changed, once
    /// the counter cannot grow.
    pub fn increment_renewal_attempt_at(&mut self, now: Timestamp) -> (r: Result<(), BillingError>)
        ensures
            subscription_outcome(
                spec_increment_renewal_attempt(old(self)@, now),
                r,
                old(self)@,
                final(self)@,
            ),
            old(self)@.wf() ==> final(self)@.wf(),
    {
        if self.renewal_attempts == u32::MAX {
            return Err(BillingError::CounterExhausted);
        }
        self.renewal_attempts = self.renewal_attempts + 1;
        self.updated_at = now;
        Ok(())
    }

    /// [`Subscription::increment_renewal_attempt_at`] at the present time.
    pub fn increment_renewal_attempt(&mut self) -> (r: Result<(), BillingError>)
        ensures
            exists|now: Timestamp|
                subscription_outcome(
                    #[trigger] spec_increment_renewal_attempt(old(self)@, now),
                    r,
                    old(self)@,
                    final(self)@,
                ),
            old(self)@.wf() ==> final(self)@.wf(),
    {
        let now = current_time();
        self.increment_renewal_attempt_at(now)
    }

    /// Clears the count of failed renewals.
    pub fn reset_renewal_attempts_at(&mut self, now: Timestamp)
        ensures
            final(self)@ == spec_reset_renewal_attempts(old(self)@, now),
            old(self)@.wf() ==> final(self)@.wf(),
    {
        self.renewal_attempts = 0;
        self.updated_at = now;
    }

    /// [`Subscription::reset_renewal_attempts_at`] at the present time.
    pub fn reset_renewal_attempts(&mut self)
        ensures
            exists|now: Timestamp|
                final(self)@ == #[trigger] spec_reset_renewal_attempts(old(self)@, now),
            old(self)@.wf() ==> final(self)@.wf(),
    {
        let now = current_time();
        self.reset_renewal_attempts_at(now)
    }

    /// Records the method and brand of the last completed payment.
    pub fn set_payment_details_at(
        &mut self,
        method: PaymentMethod,
        brand: Option<String>,
        now: Timestamp,
    )
        ensures
            final(self)@ == spec_set_payment_details(old(self)@, method, opt_view(brand), now),
            old(self)@.wf() ==> final(self)@.wf(),
    {
        self.payment_method = Some(method);
        self.payment_brand = brand;
        self.updated_at = now;
    }

    /// Whether the subscriber may renew by hand: the subscription is
    /// expired or suspended.
    pub fn can_renew_manually(&self) -> (b: bool)
        ensures
            b == (self.status == SubscriptionStatus::Expired || self.status
                == SubscriptionStatus::Suspended),
    {
        match self.status {
            SubscriptionStatus::Expired => true,
            SubscriptionStatus::Suspended => true,
            _ => false,
        }
    }

    /// Whether an automatic renewal may be tried: the subscription renews
    /// by itself and has attempts left.
    pub fn can_auto_renew(&self) -> (b: bool)
        ensures
            b == (self.auto_renew && self.renewal_attempts < self.max_renewal_attempts),
    {
        self.auto_renew && self.renewal_attempts < self.max_renewal_attempts
    }

    /// Whole days from `now` to the end date.
    pub fn days_until_expiry_at(&self, now: Timestamp) -> (r: Option<i64>)
        ensures
            r == spec_days_until(self.end_date, now),
    {
        days_until(self.end_date, now)
    }

    /// Whole days from the present time to the end date.
    pub fn days_until_expiry(&self) -> (r: Option<i64>)
        ensures
            exists|now: Timestamp| r == #[trigger] spec_days_until(self.end_date, now),
    {
        let now = current_time();
        self.days_until_expiry_at(now)
    }

    /// Whole days from `now` to the end of the grace period.
    pub fn days_until_grace_end_at(&self, now: Timestamp) -> (r: Option<i64>)
        ensures
            r == spec_days_until(self.grace_end_date, now),
    {
        days_until(self.grace_end_date, now)
    }

    /// Whole days from the present time to the end of the grace period.
    pub fn days_until_grace_end(&self) -> (r: Option<i64>)
        ensures
            exists|now: Timestamp| r == #[trigger] spec_days_until(self.grace_end_date, now),
    {
        let now = current_time();
        self.days_until_grace_end_at(now)
    }

    /// Whether the end date has passed at `now`.
    pub fn is_due_at(&self, now: Timestamp) -> (b: bool)
        ensures
            b == spec_is_due(self@, now),
    {
        match self.end_date {
            Some(end) => now.is_after(end),
            None => false,
        }
    }

    /// Whether the grace period has passed at `now`.
    pub fn is_past_grace_at(&self, now: Timestamp) -> (b: bool)
        ensures
            b == spec_is_past_grace(self@, now),
    {
        match self.grace_end_date {
            Some(grace_end) => now.is_after(grace_end),
            None => false,
        }
    }

    /// Whether the subscription is in its grace period at `now`.
    pub fn is_in_grace_period_at(&self, now: Timestamp) -> (b: bool)
        ensures
            b == spec_is_in_grace_period(self@, now),
    {
        match self.status {
            SubscriptionStatus::Grace => true,
            SubscriptionStatus::Active => self.is_due_at(now),
            _ => false,
        }
    }

    /// Whether the subscription is in its grace period at present.
    pub fn is_in_grace_period(&self) -> (b: bool)
        ensures
            exists|now: Timestamp| b == #[trigger] spec_is_in_grace_period(self@, now),
    {
        let now = current_time();
        self.is_in_grace_period_at(now)
    }

    /// Brings the status up to date at `now`; see
    /// [`spec_update_status_based_on_dates`].
    pub fn update_status_based_on_dates_at(&mut self, now: Timestamp, grace_period_days: u32) -> (r:
        Result<(), BillingError>)
        ensures
            subscription_outcome(
                spec_update_status_based_on_dates(old(self)@, now, grace_period_days),
                r,
                old(self)@,
                final(self)@,
            ),
            old(self)@.wf() ==> final(self)@.wf(),
    {
        match self.status {
            SubscriptionStatus::Active => {
                if self.is_due_at(now) {
                    if self.grace_end_date.is_none() {
                        let end = self.end_date.unwrap();
                        match end.checked_add_days(grace_period_days as i64) {
                            Some(grace_end) => {
                                self.grace_end_date = Some(grace_end);
                            },
                            None => {
                                return Err(BillingError::DateOutOfRange);
                            },
                        }
                    }
                    self.status = SubscriptionStatus::Grace;
                    self.updated_at = now;
                }
            },
            SubscriptionStatus::Grace => {
                if self.is_past_grace_at(now) {
                    self.status = SubscriptionStatus::Expired;
                    self.updated_at = now;
                }
            },
            _ => {},
        }
        Ok(())
    }

    /// [`Subscription::update_status_based_on_dates_at`] at the present
    /// time.
    pub fn update_status_based_on_dates(&mut self, grace_period_days: u32) -> (r: Result<
        (),
        BillingError,
    >)
        ensures
            exists|now: Timestamp|
                subscription_outcome(
                    #[trigger] spec_update_status_based_on_dates(
                        old(self)@,
                        now,
                        grace_period_days,
                    ),
                    r,
                    old(self)@,
                    final(self)@,
                ),
            old(self)@.wf() ==> final(self)@.wf(),
    {
        let now = current_time();
        self.update_status_based_on_dates_at(now, grace_period_days)
    }
}

impl Subscription {
    /// Run-time form of the invariant of a subscription; see
    /// [`SubscriptionView::wf`].
    pub fn is_well_formed(&self) -> (b: bool)
        ensures
            b == self@.wf(),
    {
        let needs_dates = match self.status {
            SubscriptionStatus::Active => true,
            SubscriptionStatus::Grace => true,
            SubscriptionStatus::Suspended => true,
            SubscriptionStatus::Expired => true,
            _ => false,
        };
        let has_dates = self.start_date.is_some() && self.end_date.is_some()
            && self.grace_end_date.is_some();
        let start_before_end = match (self.start_date, self.end_date) {
            (Some(start), Some(end)) => start.millis <= end.millis,
            _ => true,
        };
        let end_before_grace = match (self.end_date, self.grace_end_date) {
            (Some(end), Some(grace_end)) => end.millis <= grace_end.millis,
            _ => true,
        };
        (!needs_dates || has_dates) && start_before_end && end_before_grace
    }
}

/// What a caller who asks for the status of a subscription is told.
#[derive(Debug)]
pub struct SubscriptionStatusResponse {
    pub id: RecordId,
    pub user_id: RecordId,
    pub plan: SubscriptionPlan,
    pub status: SubscriptionStatus,
    pub price: Amount,
    pub currency: String,
    pub start_date: Option<Timestamp>,
    pub end_date: Option<Timestamp>,
    pub grace_end_date: Option<Timestamp>,
    pub days_until_expiry: Option<i64>,
    pub days_until_grace_end: Option<i64>,
    pub auto_renew: bool,
    pub can_renew: bool,
    pub renewal_attempts: u32,
    pub max_renewal_attempts: u32,
    pub is_paused: bool,
    pub created_at: Timestamp,
    pub updated_at: Timestamp,
}

/// What a caller who asks about the next renewal of a subscription is
/// told.
#[derive(Debug)]
pub struct RenewalInfo {
    pub subscription_id: RecordId,
    pub next_billing_date: Option<Timestamp>,
    pub amount: Amount,
    pub currency: String,
    pub days_until_renewal: Option<i64>,
    pub auto_renew: bool,
    pub can_renew_manually: bool,
    pub grace_period_active: bool,
    pub grace_days_remaining: Option<i64>,
}

/// Whether `r` is what a caller is told of the status of `s` at `now`.
pub open spec fn spec_is_status_response(
    s: SubscriptionView,
    now: Timestamp,
    r: SubscriptionStatusResponse,
) -> bool {
    &&& r.id == s.id
    &&& r.user_id == s.user_id
    &&& r.plan == s.plan
    &&& r.status == s.status
    &&& r.price == s.price
    &&& r.currency@ == s.currency
    &&& r.start_date == s.start_date
    &&& r.end_date == s.end_date
    &&& r.grace_end_date == s.grace_end_date
    &&& r.days_until_expiry == spec_days_until(s.end_date, now)
    &&& r.days_until_grace_end == spec_days_until(s.grace_end_date, now)
    &&& r.auto_renew == s.auto_renew
    &&& r.can_renew == (s.status == SubscriptionStatus::Expired || s.status
        == SubscriptionStatus::Suspended)
    &&& r.renewal_attempts == s.renewal_attempts
    &&& r.max_renewal_attempts == s.max_renewal_attempts
    &&& r.is_paused == (s.status == SubscriptionStatus::Suspended)
    &&& r.created_at == s.created_at
    &&& r.updated_at == s.updated_at
}

/// Whether `r` is what a caller is told of the next renewal of `s` at
/// `now`.
pub open spec fn spec_is_renewal_info(s: SubscriptionView, now: Timestamp, r: RenewalInfo) -> bool {
    &&& r.subscription_id == s.id
    &&& r.next_billing_date == s.end_date
    &&& r.amount == s.price
    &&& r.currency@ == s.currency
    &&& r.days_until_renewal == spec_days_until(s.end_date, now)
    &&& r.auto_renew == s.auto_renew
    &&& r.can_renew_manually == (s.status == SubscriptionStatus::Expired || s.status
        == SubscriptionStatus::Suspended)
    &&& r.grace_period_active == spec_is_in_grace_period(s, now)
    &&& r.grace_days_remaining == spec_days_until(s.grace_end_date, now)
}

impl Subscription {
    /// The status of the subscription as seen at `now`.
    pub fn to_status_response_at(&self, now: Timestamp) -> (r: SubscriptionStatusResponse)
        ensures
            spec_is_status_response(self@, now, r),
    {
        SubscriptionStatusResponse {
            id: self.id,
            user_id: self.user_id,
            plan: self.plan,
            status: self.status,
            price: self.price,
            currency: self.currency.clone(),
            start_date: self.start_date,
            end_date: self.end_date,
            grace_end_date: self.grace_end_date,
            days_until_expiry: self.days_until_expiry_at(now),
            days_until_grace_end: self.days_until_grace_end_at(now),
            auto_renew: self.auto_renew,
            can_renew: self.can_renew_manually(),
            renewal_attempts: self.renewal_attempts,
            max_renewal_attempts: self.max_renewal_attempts,
            is_paused: self.status == SubscriptionStatus::Suspended,
            created_at: self.created_at,
            updated_at: self.updated_at,
        }
    }

    /// The status of the subscription as seen at present.
    pub fn to_status_response(&self) -> (r: SubscriptionStatusResponse)
        ensures
            exists|now: Timestamp| #[trigger] spec_is_status_response(self@, now, r),
    {
        let now = current_time();
        self.to_status_response_at(now)
    }

    /// The next renewal of the subscription as seen at `now`.
    pub fn get_renewal_info_at(&self, now: Timestamp) -> (r: RenewalInfo)
        ensures
            spec_is_renewal_info(self@, now, r),
    {
        RenewalInfo {
            subscription_id: self.id,
            next_billing_date: self.end_date,
            amount: self.price,
            currency: self.currency.clone(),
            days_until_renewal: self.days_until_expiry_at(now),
            auto_renew: self.auto_renew,
            can_renew_manually: self.can_renew_manually(),
            grace_period_active: self.is_in_grace_period_at(now),
            grace_days_remaining: self.days_until_grace_end_at(now),
        }
    }

    /// The next renewal of the subscription as seen at present.
    pub fn get_renewal_info(&self) -> (r: RenewalInfo)
        ensures
            exists|now: Timestamp| #[trigger] spec_is_renewal_info(self@, now, r),
    {
        let now = current_time();
        self.get_renewal_info_at(now)
    }
}

/// A renewal counts from the end date, not from the time it happens: the
/// new end date is the old one plus one period of the plan, whenever the
/// renewal is made.
pub proof fn renew_extends_from_previous_end(
    s: SubscriptionView,
    now: Timestamp,
    grace_period_days: u32,
)
    requires
        spec_renew(s, now, grace_period_days).is_ok(),
    ensures
        s.end_date.is_some(),
        spec_renew(s, now, grace_period_days).unwrap().end_date.unwrap().millis
            == s.end_date.unwrap().millis + s.plan.spec_duration_days() * 86_400_000,
        spec_renew(s, now, grace_period_days).unwrap().start_date == s.start_date,
        spec_renew(s, now, grace_period_days).unwrap().status == SubscriptionStatus::Active,
        spec_renew(s, now, grace_period_days).unwrap().renewal_attempts == 0,
{
}

/// When a renewal is made has no bearing on the dates it leads to.
pub proof fn renewal_dates_do_not_depend_on_time(
    s: SubscriptionView,
    early: Timestamp,
    late: Timestamp,
    grace_period_days: u32,
)
    ensures
        spec_renew(s, early, grace_period_days).is_ok() <==> spec_renew(
            s,
            late,
            grace_period_days,
        ).is_ok(),
        spec_renew(s, early, grace_period_days).is_ok() ==> spec_renew(
            s,
            early,
            grace_period_days,
        ).unwrap().end_date == spec_renew(s, late, grace_period_days).unwrap().end_date
            && spec_renew(s, early, grace_period_days).unwrap().grace_end_date == spec_renew(
            s,
            late,
            grace_period_days,
        ).unwrap().grace_end_date,
{
}

/// An activation followed by a renewal gives two full periods of the plan,
/// however late the renewal is made.
pub proof fn activate_then_renew_spans_two_periods(
    s: SubscriptionView,
    activated_at: Timestamp,
    renewed_at: Timestamp,
    first_grace_days: u32,
    second_grace_days: u32,
)
    requires
        spec_activate(s, activated_at, first_grace_days).is_ok(),
        spec_renew(
            spec_activate(s, activated_at, first_grace_days).unwrap(),
            renewed_at,
            second_grace_days,
        ).is_ok(),
    ensures
        ({
            let renewed = spec_renew(
                spec_activate(s, activated_at, first_grace_days).unwrap(),
                renewed_at,
                second_grace_days,
            ).unwrap();
            renewed.end_date.unwrap().millis - renewed.start_date.unwrap().millis == 2
                * s.plan.spec_duration_days() * 86_400_000
        }),
{
}

/// Every transition keeps the invariant of a subscription, and none
/// changes its id or leaves a final status.
pub proof fn transitions_keep_invariant(
    s: SubscriptionView,
    now: Timestamp,
    grace_period_days: u32,
    days: i64,
)
    requires
        s.wf(),
    ensures
        spec_activate(s, now, grace_period_days) matches Ok(t) ==> t.wf() && t.id == s.id,
        spec_renew(s, now, grace_period_days) matches Ok(t) ==> t.wf() && t.id == s.id,
        spec_extend(s, days, now) matches Ok(t) ==> t.wf() && t.id == s.id,
        spec_pause(s, now) matches Ok(t) ==> t.wf() && t.id == s.id,
        spec_resume(s, now) matches Ok(t) ==> t.wf() && t.id == s.id,
        spec_suspend(s, now) matches Ok(t) ==> t.wf() && t.id == s.id,
        spec_cancel(s, now) matches Ok(t) ==> t.wf() && t.id == s.id,
        spec_update_status_based_on_dates(s, now, grace_period_days) matches Ok(t) ==> t.wf()
            && t.id == s.id,
        s.status.spec_is_terminal() ==> {
            &&& spec_activate(s, now, grace_period_days).is_err()
            &&& spec_renew(s, now, grace_period_days).is_err()
            &&& spec_pause(s, now).is_err()
            &&& spec_resume(s, now).is_err()
            &&& spec_suspend(s, now).is_err()
            &&& spec_cancel(s, now).is_err()
            &&& spec_update_status_based_on_dates(s, now, grace_period_days) == Ok::<
                SubscriptionView,
                BillingError,
            >(s)
        },
{
}

/// The instant at which a period ends still belongs to it: a subscription
/// is due only after its end date, and past its grace period only after
/// the end of grace.
pub proof fn boundary_instant_is_inside(s: SubscriptionView, now: Timestamp)
    ensures
        s.end_date == Some(now) ==> !spec_is_due(s, now),
        s.grace_end_date == Some(now) ==> !spec_is_past_grace(s, now),
{
}

/// A resumed subscription gets back exactly the time it was paused for.
pub proof fn resume_returns_paused_time(s: SubscriptionView, paused_at: Timestamp, now: Timestamp)
    requires
        spec_pause(s, paused_at).is_ok(),
        s.end_date.is_some(),
        spec_resume(spec_pause(s, paused_at).unwrap(), now).is_ok(),
    ensures
        spec_resume(spec_pause(s, paused_at).unwrap(), now).unwrap().end_date.unwrap().millis
            == s.end_date.unwrap().millis + (now.millis - paused_at.millis),
        now.millis >= paused_at.millis,
{
}

} // verus!
