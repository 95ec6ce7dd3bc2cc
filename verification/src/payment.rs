//! Payments and their state machine.
//!
//! A payment starts `Pending`. From there it settles as `Completed`,
//! `Failed` or `Cancelled`; a completed payment may later be refunded, in
//! part or in whole. No other move exists: once settled, a payment never
//! returns to `Pending` and never changes to another settled status.

use vstd::prelude::*;
use vstd::string::*;
use crate::common::{opt_view, PaymentMethod};
use crate::error::BillingError;
use crate::ids::RecordId;
use crate::money::Amount;
use crate::text::{is_prefix, str_equal, str_starts_with};
use crate::time::{current_time, Timestamp};

verus! {

/// The status of a payment.
#[derive(Clone, Copy, Debug, PartialEq, Eq, Structural)]
pub enum PaymentStatus {
    Pending,
    Completed,
    Failed,
    Cancelled,
    Refunded,
    PartiallyRefunded,
}

/// What a payment is for.
#[derive(Clone, Copy, Debug, PartialEq, Eq, Structural)]
pub enum PaymentType {
    OneTime,
    Recurring,
    /// A payment that only registers a payment method.
    Registration,
}

/// The status that a result code of the gateway stands for.
///
/// Codes that begin `000.000` or `000.100` report success, codes that begin
/// `000.200` report that nothing is decided yet, and every other code,
/// `100.396.104` (cancelled by the payer) among them, reports failure.
pub open spec fn spec_status_of_code(code: Seq<char>) -> PaymentStatus {
    if is_prefix("000.000"@, code) || is_prefix("000.100"@, code) {
        PaymentStatus::Completed
    } else if is_prefix("000.200"@, code) {
        PaymentStatus::Pending
    } else {
        PaymentStatus::Failed
    }
}

/// Whether a result code says that the payer cancelled.
pub open spec fn spec_is_user_cancellation(code: Seq<char>) -> bool {
    code == "100.396.104"@
}

/// Whether a payment may move from `from` to `to`. Staying put is always
/// allowed and changes nothing.
pub open spec fn transition_allowed(from: PaymentStatus, to: PaymentStatus) -> bool {
    ||| from == to
    ||| from == PaymentStatus::Pending && (to == PaymentStatus::Completed || to
        == PaymentStatus::Failed || to == PaymentStatus::Cancelled)
    ||| from == PaymentStatus::Completed && (to == PaymentStatus::Refunded || to
        == PaymentStatus::PartiallyRefunded)
}

/// Whether a status ends the payment as far as renewals are concerned.
pub open spec fn spec_is_final(s: PaymentStatus) -> bool {
    s == PaymentStatus::Completed || s == PaymentStatus::Failed || s == PaymentStatus::Cancelled
        || s == PaymentStatus::Refunded
}

/// Whether reaching a status settles the payment and stamps the time.
pub open spec fn spec_settles(s: PaymentStatus) -> bool {
    s == PaymentStatus::Completed || s == PaymentStatus::Failed || s == PaymentStatus::Cancelled
}

impl PaymentStatus {
    /// The status that a result code of the gateway stands for.
    pub fn from_peach_code(code: &str) -> (s: PaymentStatus)
        ensures
            s == spec_status_of_code(code@),
    {
        if str_starts_with(code, "000.000") || str_starts_with(code, "000.100") {
            PaymentStatus::Completed
        } else if str_starts_with(code, "000.200") {
            PaymentStatus::Pending
        } else {
            PaymentStatus::Failed
        }
    }

    /// Whether a result code says that the payer cancelled.
    pub fn is_user_cancellation(code: &str) -> (b: bool)
        ensures
            b == spec_is_user_cancellation(code@),
    {
        str_equal(code, "100.396.104")
    }

    /// Whether a payment may move from `self` to `to`.
    pub fn can_become(&self, to: PaymentStatus) -> (b: bool)
        ensures
            b == transition_allowed(*self, to),
    {
        match (*self, to) {
            (PaymentStatus::Pending, PaymentStatus::Pending) => true,
            (PaymentStatus::Pending, PaymentStatus::Completed) => true,
            (PaymentStatus::Pending, PaymentStatus::Failed) => true,
            (PaymentStatus::Pending, PaymentStatus::Cancelled) => true,
            (PaymentStatus::Completed, PaymentStatus::Completed) => true,
            (PaymentStatus::Completed, PaymentStatus::Refunded) => true,
            (PaymentStatus::Completed, PaymentStatus::PartiallyRefunded) => true,
            (PaymentStatus::Failed, PaymentStatus::Failed) => true,
            (PaymentStatus::Cancelled, PaymentStatus::Cancelled) => true,
            (PaymentStatus::Refunded, PaymentStatus::Refunded) => true,
            (PaymentStatus::PartiallyRefunded, PaymentStatus::PartiallyRefunded) => true,
            _ => false,
        }
    }

    /// Whether the status ends the payment as far as renewals are concerned.
    pub fn is_final(&self) -> (b: bool)
        ensures
            b == spec_is_final(*self),
    {
        match self {
            PaymentStatus::Completed => true,
            PaymentStatus::Failed => true,
            PaymentStatus::Cancelled => true,
            PaymentStatus::Refunded => true,
            _ => false,
        }
    }

    /// Whether reaching the status settles the payment.
    pub fn settles(&self) -> (b: bool)
        ensures
            b == spec_settles(*self),
    {
        match self {
            PaymentStatus::Completed => true,
            PaymentStatus::Failed => true,
            PaymentStatus::Cancelled => true,
            _ => false,
        }
    }
}

/// A payment as stored.
#[derive(Debug)]
pub struct Payment {
    pub id: RecordId,
    pub user_id: RecordId,
    pub subscription_id: Option<RecordId>,
    /// The key under which the gateway reports on this payment. It is set
    /// once, when the payment is created.
    pub merchant_transaction_id: String,
    pub peach_checkout_id: Option<String>,
    pub peach_payment_id: Option<String>,
    pub amount: Amount,
    pub currency: String,
    pub payment_method: PaymentMethod,
    pub payment_type: PaymentType,
    pub status: PaymentStatus,
    pub failure_reason: Option<String>,
    pub recurring_token: Option<String>,
    pub enable_recurring: bool,
    pub retry_count: u32,
    pub created_at: Timestamp,
    pub updated_at: Timestamp,
    pub completed_at: Option<Timestamp>,
}

/// A payment as a mathematical value.
pub struct PaymentView {
    pub id: RecordId,
    pub user_id: RecordId,
    pub subscription_id: Option<RecordId>,
    pub merchant_transaction_id: Seq<char>,
    pub peach_checkout_id: Option<Seq<char>>,
    pub peach_payment_id: Option<Seq<char>>,
    pub amount: Amount,
    pub currency: Seq<char>,
    pub payment_method: PaymentMethod,
    pub payment_type: PaymentType,
    pub status: PaymentStatus,
    pub failure_reason: Option<Seq<char>>,
    pub recurring_token: Option<Seq<char>>,
    pub enable_recurring: bool,
    pub retry_count: u32,
    pub created_at: Timestamp,
    pub updated_at: Timestamp,
    pub completed_at: Option<Timestamp>,
}

impl View for Payment {
    type V = PaymentView;

    open spec fn view(&self) -> PaymentView {
        PaymentView {
            id: self.id,
            user_id: self.user_id,
            subscription_id: self.subscription_id,
            merchant_transaction_id: self.merchant_transaction_id@,
            peach_checkout_id: opt_view(self.peach_checkout_id),
            peach_payment_id: opt_view(self.peach_payment_id),
            amount: self.amount,
            currency: self.currency@,
            payment_method: self.payment_method,
            payment_type: self.payment_type,
            status: self.status,
            failure_reason: opt_view(self.failure_reason),
            recurring_token: opt_view(self.recurring_token),
            enable_recurring: self.enable_recurring,
            retry_count: self.retry_count,
            created_at: self.created_at,
            updated_at: self.updated_at,
            completed_at: self.completed_at,
        }
    }
}

/// What a caller asks for when it starts a payment.
#[derive(Debug)]
pub struct InitiatePaymentRequest {
    pub user_id: RecordId,
    pub subscription_id: RecordId,
    pub amount: Amount,
    /// `ZAR` when absent.
    pub currency: Option<String>,
    pub payment_method: PaymentMethod,
    /// Whether the payer agrees to later charges without being asked again;
    /// no when absent.
    pub enable_recurring: Option<bool>,
    pub return_url: Option<String>,
    pub webhook_url: Option<String>,
}

/// The currency of a request: the one named, or `ZAR`.
pub open spec fn spec_request_currency(currency: Option<Seq<char>>) -> Seq<char> {
    match currency {
        Some(c) => c,
        None => "ZAR"@,
    }
}

/// The payment that a request creates: `Pending`, never retried, with the
/// ids and the time given.
pub open spec fn spec_new_payment(
    request: InitiatePaymentRequest,
    merchant_transaction_id: Seq<char>,
    id: RecordId,
    now: Timestamp,
) -> PaymentView {
    PaymentView {
        id,
        user_id: request.user_id,
        subscription_id: Some(request.subscription_id),
        merchant_transaction_id,
        peach_checkout_id: None,
        peach_payment_id: None,
        amount: request.amount,
        currency: spec_request_currency(opt_view(request.currency)),
        payment_method: request.payment_method,
        payment_type: PaymentType::OneTime,
        status: PaymentStatus::Pending,
        failure_reason: None,
        recurring_token: None,
        enable_recurring: request.enable_recurring == Some(true),
        retry_count: 0,
        created_at: now,
        updated_at: now,
        completed_at: None,
    }
}

/// The payment after its status was set to `status` at `now`. Setting the
/// status it already has changes nothing at all.
pub open spec fn spec_status_applied(
    p: PaymentView,
    status: PaymentStatus,
    failure_reason: Option<Seq<char>>,
    now: Timestamp,
) -> PaymentView {
    if p.status == status {
        p
    } else {
        PaymentView {
            status,
            failure_reason,
            updated_at: now,
            completed_at: if spec_settles(status) {
                Some(now)
            } else {
                p.completed_at
            },
            ..p
        }
    }
}

/// The result of asking a payment to move to `status` at `now`.
pub open spec fn spec_update_status(
    p: PaymentView,
    status: PaymentStatus,
    failure_reason: Option<Seq<char>>,
    now: Timestamp,
) -> Result<PaymentView, BillingError> {
    if transition_allowed(p.status, status) {
        Ok(spec_status_applied(p, status, failure_reason, now))
    } else {
        Err(BillingError::InvalidPaymentTransition)
    }
}

/// The payment with the gateway's ids recorded at `now`.
pub open spec fn spec_set_peach_ids(
    p: PaymentView,
    checkout_id: Option<Seq<char>>,
    payment_id: Option<Seq<char>>,
    now: Timestamp,
) -> PaymentView {
    PaymentView { peach_checkout_id: checkout_id, peach_payment_id: payment_id, updated_at: now, ..p }
}

/// The payment with a recurring token stored at `now`.
pub open spec fn spec_set_recurring_token(
    p: PaymentView,
    token: Seq<char>,
    now: Timestamp,
) -> PaymentView {
    PaymentView {
        recurring_token: Some(token),
        payment_type: PaymentType::Recurring,
        updated_at: now,
        ..p
    }
}

/// The result of counting one more attempt at `now`.
pub open spec fn spec_increment_retry(p: PaymentView, now: Timestamp) -> Result<
    PaymentView,
    BillingError,
> {
    if p.retry_count == u32::MAX {
        Err(BillingError::CounterExhausted)
    } else {
        Ok(PaymentView { retry_count: (p.retry_count + 1) as u32, updated_at: now, ..p })
    }
}

/// Whether a call that returned `r` and left the payment as `after` did
/// what `expected` asks of a payment that was `before`: on success the
/// payment is the expected one; on refusal the cause is the expected one
/// and the payment is untouched.
pub open spec fn payment_outcome(
    expected: Result<PaymentView, BillingError>,
    r: Result<(), BillingError>,
    before: PaymentView,
    after: PaymentView,
) -> bool {
    match expected {
        Ok(v) => r.is_ok() && after == v,
        Err(e) => r == Err::<(), BillingError>(e) && after == before,
    }
}

impl Clone for Payment {
    fn clone(&self) -> (c: Self)
        ensures
            c@ == self@,
    {
        Payment {
            id: self.id,
            user_id: self.user_id,
            subscription_id: self.subscription_id,
            merchant_transaction_id: self.merchant_transaction_id.clone(),
            peach_checkout_id: self.peach_checkout_id.clone(),
            peach_payment_id: self.peach_payment_id.clone(),
            amount: self.amount,
            currency: self.currency.clone(),
            payment_method: self.payment_method,
            payment_type: self.payment_type,
            status: self.status,
            failure_reason: self.failure_reason.clone(),
            recurring_token: self.recurring_token.clone(),
            enable_recurring: self.enable_recurring,
            retry_count: self.retry_count,
            created_at: self.created_at,
            updated_at: self.updated_at,
            completed_at: self.completed_at,
        }
    }
}

impl Payment {
    /// The payment that `request` creates at `now` under the ids given, or a
    /// refusal when the amount is below zero or cannot be held.
    pub fn new_at(
        request: InitiatePaymentRequest,
        merchant_transaction_id: String,
        id: RecordId,
        now: Timestamp,
    ) -> (r: Result<Payment, BillingError>)
        ensures
            request.amount.mantissa < 0 ==> r == Err::<Payment, BillingError>(
                BillingError::NegativeAmount,
            ),
            request.amount.mantissa >= 0 && !request.amount.wf() ==> r == Err::<
                Payment,
                BillingError,
            >(BillingError::AmountOutOfRange),
            request.amount.mantissa >= 0 && request.amount.wf() ==> r.is_ok() && r.unwrap()@
                == spec_new_payment(request, merchant_transaction_id@, id, now),
    {
        if request.amount.is_negative() {
            return Err(BillingError::NegativeAmount);
        }
        if !request.amount.is_well_formed() {
            return Err(BillingError::AmountOutOfRange);
        }
        let currency = match request.currency {
            Some(c) => c,
            None => String::from_str("ZAR"),
        };
        let enable_recurring = match request.enable_recurring {
            Some(b) => b,
            None => false,
        };
        Ok(
            Payment {
                id,
                user_id: request.user_id,
                subscription_id: Some(request.subscription_id),
                merchant_transaction_id,
                peach_checkout_id: None,
                peach_payment_id: None,
                amount: request.amount,
                currency,
                payment_method: request.payment_method,
                payment_type: PaymentType::OneTime,
                status: PaymentStatus::Pending,
                failure_reason: None,
                recurring_token: None,
                enable_recurring,
                retry_count: 0,
                created_at: now,
                updated_at: now,
                completed_at: None,
            },
        )
    }

    /// The payment that `request` creates now, under a fresh random id.
    pub fn new(request: InitiatePaymentRequest, merchant_transaction_id: String) -> (r: Result<
        Payment,
        BillingError,
    >)
        ensures
            request.amount.mantissa < 0 ==> r == Err::<Payment, BillingError>(
                BillingError::NegativeAmount,
            ),
            request.amount.mantissa >= 0 && !request.amount.wf() ==> r == Err::<
                Payment,
                BillingError,
            >(BillingError::AmountOutOfRange),
            request.amount.mantissa >= 0 && request.amount.wf() ==> r.is_ok() && exists|
                id: RecordId,
                now: Timestamp,
            |
                r.unwrap()@ == #[trigger] spec_new_payment(
                    request,
                    merchant_transaction_id@,
                    id,
                    now,
                ),
    {
        let id = RecordId::generate();
        let now = current_time();
        Payment::new_at(request, merchant_transaction_id, id, now)
    }

    /// Moves the payment to `status` at `now`, if the state machine allows
    /// it. Asking for the status the payment already has succeeds and
    /// changes nothing; a move that is not allowed is refused and changes
    /// nothing.
    pub fn update_status_at(
        &mut self,
        status: PaymentStatus,
        failure_reason: Option<String>,
        now: Timestamp,
    ) -> (r: Result<(), BillingError>)
        ensures
            payment_outcome(
                spec_update_status(old(self)@, status, opt_view(failure_reason), now),
                r,
                old(self)@,
                final(self)@,
            ),
    {
        if !self.status.can_become(status) {
            return Err(BillingError::InvalidPaymentTransition);
        }
        if self.status == status {
            return Ok(());
        }
        self.status = status;
        self.failure_reason = failure_reason;
        self.updated_at = now;
        if status.settles() {
            self.completed_at = Some(now);
        }
        Ok(())
    }

    /// [`Payment::update_status_at`] at the present time.
    pub fn update_status(&mut self, status: PaymentStatus, failure_reason: Option<String>) -> (r:
        Result<(), BillingError>)
        ensures
            exists|now: Timestamp|
                payment_outcome(
                    #[trigger] spec_update_status(
                        old(self)@,
                        status,
                        opt_view(failure_reason),
                        now,
                    ),
                    r,
                    old(self)@,
                    final(self)@,
                ),
    {
        let now = current_time();
        self.update_status_at(status, failure_reason, now)
    }

    /// Records the gateway's ids for the checkout and for the payment.
    pub fn set_peach_ids_at(
        &mut self,
        checkout_id: Option<String>,
        payment_id: Option<String>,
        now: Timestamp,
    )
        ensures
            final(self)@ == spec_set_peach_ids(
                old(self)@,
                opt_view(checkout_id),
                opt_view(payment_id),
                now,
            ),
    {
        self.peach_checkout_id = checkout_id;
        self.peach_payment_id = payment_id;
        self.updated_at = now;
    }

    /// [`Payment::set_peach_ids_at`] at the present time.
    pub fn set_peach_ids(&mut self, checkout_id: Option<String>, payment_id: Option<String>)
        ensures
            exists|now: Timestamp|
                final(self)@ == #[trigger] spec_set_peach_ids(
                    old(self)@,
                    opt_view(checkout_id),
                    opt_view(payment_id),
                    now,
                ),
    {
        let now = current_time();
        self.set_peach_ids_at(checkout_id, payment_id, now)
    }

    /// Stores the token under which the gateway will charge again, and
    /// marks the payment as recurring.
    pub fn set_recurring_token_at(&mut self, token: String, now: Timestamp)
        ensures
            final(self)@ == spec_set_recurring_token(old(self)@, token@, now),
    {
        self.recurring_token = Some(token);
        self.payment_type = PaymentType::Recurring;
        self.updated_at = now;
    }

    /// [`Payment::set_recurring_token_at`] at the present time.
    pub fn set_recurring_token(&mut self, token: String)
        ensures
            exists|now: Timestamp|
                final(self)@ == #[trigger] spec_set_recurring_token(old(self)@, token@, now),
    {
        let now = current_time();
        self.set_recurring_token_at(token, now)
    }

    /// Counts one more attempt. Refused, with nothing changed, once the
    /// counter cannot grow.
    pub fn increment_retry_at(&mut self, now: Timestamp) -> (r: Result<(), BillingError>)
        ensures
            payment_outcome(spec_increment_retry(old(self)@, now), r, old(self)@, final(self)@),
    {
        if self.retry_count == u32::MAX {
            return Err(BillingError::CounterExhausted);
        }
        self.retry_count = self.retry_count + 1;
        self.updated_at = now;
        Ok(())
    }

    /// [`Payment::increment_retry_at`] at the present time.
    pub fn increment_retry(&mut self) -> (r: Result<(), BillingError>)
        ensures
            exists|now: Timestamp|
                payment_outcome(
                    #[trigger] spec_increment_retry(old(self)@, now),
                    r,
                    old(self)@,
                    final(self)@,
                ),
    {
        let now = current_time();
        self.increment_retry_at(now)
    }

    /// Whether the payment has reached a status that no renewal logic
    /// moves it out of.
    pub fn is_final_status(&self) -> (b: bool)
        ensures
            b == spec_is_final(self.status),
    {
        self.status.is_final()
    }

    /// Whether another attempt may be made: the payment is not final and
    /// fewer than three attempts were counted.
    pub fn can_retry(&self) -> (b: bool)
        ensures
            b == (!spec_is_final(self.status) && self.retry_count < 3),
    {
        !self.is_final_status() && self.retry_count < 3
    }

    /// Whether a payment method was already stored from this payment.
    pub fn is_recurring(&self) -> (b: bool)
        ensures
            b == (self.payment_type == PaymentType::Recurring),
    {
        match self.payment_type {
            PaymentType::Recurring => true,
            _ => false,
        }
    }
}

/// The result code mapping is total, and it depends on the code alone: the
/// same code always stands for the same status, and that status is one of
/// `Completed`, `Pending` and `Failed`.
pub proof fn status_of_code_is_total_and_stable(a: Seq<char>, b: Seq<char>)
    ensures
        a == b ==> spec_status_of_code(a) == spec_status_of_code(b),
        spec_status_of_code(a) == PaymentStatus::Completed || spec_status_of_code(a)
            == PaymentStatus::Pending || spec_status_of_code(a) == PaymentStatus::Failed,
        spec_is_user_cancellation(a) ==> spec_status_of_code(a) == PaymentStatus::Failed,
{
    reveal_strlit("100.396.104");
    reveal_strlit("000.000");
    reveal_strlit("000.100");
    reveal_strlit("000.200");
    if spec_is_user_cancellation(a) {
        assert(a[0] == '1');
        assert("000.000"@[0] == '0');
        assert(is_prefix("000.000"@, a) ==> a.subrange(0, 7)[0] == "000.000"@[0]);
        assert(is_prefix("000.100"@, a) ==> a.subrange(0, 7)[0] == "000.100"@[0]);
        assert(is_prefix("000.200"@, a) ==> a.subrange(0, 7)[0] == "000.200"@[0]);
    }
}

/// What a caller who asks for the status of a payment is told.
#[derive(Debug)]
pub struct PaymentStatusResponse {
    pub payment_id: RecordId,
    pub status: PaymentStatus,
    pub amount: Amount,
    pub currency: String,
    pub payment_method: PaymentMethod,
    pub created_at: Timestamp,
    pub completed_at: Option<Timestamp>,
    pub failure_reason: Option<String>,
    /// Whether the payment left a token to charge again.
    pub recurring_available: bool,
    /// Set for a payment whose checkout was not created yet: its status
    /// cannot be asked of the gateway.
    pub note: Option<String>,
}

/// The note on a payment that has no checkout.
pub open spec fn spec_status_note(p: PaymentView) -> Option<Seq<char>> {
    if p.peach_checkout_id.is_none() {
        Some("No checkout ID available"@)
    } else {
        None
    }
}

impl Payment {
    /// What a caller who asks for the status of the payment is told: the
    /// status as the ledger has it.
    pub fn to_status_response(&self) -> (r: PaymentStatusResponse)
        ensures
            r.payment_id == self.id,
            r.status == self.status,
            r.amount == self.amount,
            r.currency@ == self.currency@,
            r.payment_method == self.payment_method,
            r.created_at == self.created_at,
            r.completed_at == self.completed_at,
            opt_view(r.failure_reason) == opt_view(self.failure_reason),
            r.recurring_available == self.recurring_token.is_some(),
            opt_view(r.note) == spec_status_note(self@),
    {
        let failure_reason = match &self.failure_reason {
            Some(reason) => Some(reason.clone()),
            None => None,
        };
        let note = match &self.peach_checkout_id {
            Some(_) => None,
            None => Some(String::from_str("No checkout ID available")),
        };
        PaymentStatusResponse {
            payment_id: self.id,
            status: self.status,
            amount: self.amount,
            currency: self.currency.clone(),
            payment_method: self.payment_method,
            created_at: self.created_at,
            completed_at: self.completed_at,
            failure_reason,
            recurring_available: self.recurring_token.is_some(),
            note,
        }
    }
}

/// Applying a status is idempotent: once a payment has taken a status,
/// asking for that status again, at any later time and for any reason,
/// succeeds and leaves the payment exactly as it is.
pub proof fn update_status_is_idempotent(
    p: PaymentView,
    status: PaymentStatus,
    first_reason: Option<Seq<char>>,
    first_time: Timestamp,
    second_reason: Option<Seq<char>>,
    second_time: Timestamp,
)
    ensures
        spec_update_status(p, status, first_reason, first_time) matches Ok(q)
            ==> q.status == status && spec_update_status(q, status, second_reason, second_time)
            == Ok::<PaymentView, BillingError>(q),
{
}

/// A settled payment keeps its status: a payment that is completed,
/// failed or cancelled cannot take another of these three, and no payment
/// that has left `Pending` returns to it. The refusal changes nothing.
pub proof fn settled_payment_keeps_status(
    p: PaymentView,
    status: PaymentStatus,
    reason: Option<Seq<char>>,
    now: Timestamp,
)
    requires
        p.status != status,
        (spec_settles(p.status) && spec_settles(status)) || (p.status != PaymentStatus::Pending
            && status == PaymentStatus::Pending),
    ensures
        spec_update_status(p, status, reason, now) == Err::<PaymentView, BillingError>(
            BillingError::InvalidPaymentTransition,
        ),
{
}

/// Whatever is done to a payment, its merchant transaction id stays.
pub proof fn merchant_transaction_id_is_immutable(
    p: PaymentView,
    status: PaymentStatus,
    reason: Option<Seq<char>>,
    checkout_id: Option<Seq<char>>,
    payment_id: Option<Seq<char>>,
    token: Seq<char>,
    now: Timestamp,
)
    ensures
        spec_update_status(p, status, reason, now) matches Ok(q) ==> q.merchant_transaction_id
            == p.merchant_transaction_id,
        spec_set_peach_ids(p, checkout_id, payment_id, now).merchant_transaction_id
            == p.merchant_transaction_id,
        spec_set_recurring_token(p, token, now).merchant_transaction_id
            == p.merchant_transaction_id,
        spec_increment_retry(p, now) matches Ok(q) ==> q.merchant_transaction_id
            == p.merchant_transaction_id,
{
}

} // verus!
