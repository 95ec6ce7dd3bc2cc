//! The payment ledger: the payments of the service, found by merchant
//! transaction id.
//!
//! The gateway knows a payment only by the merchant transaction id that was
//! sent with its checkout, so no two payments of a ledger share one. Every
//! operation either succeeds as its contract says or is refused and leaves
//! the ledger as it was.

use vstd::prelude::*;
use vstd::string::*;
use crate::common::{
    opt_view, spec_limit, spec_offset, spec_page, spec_total_pages, PaginatedResponse,
    PaginationQuery,
};
use crate::error::BillingError;
use crate::ids::{merchant_transaction_id_from, random_u128, simple_hex, txn_prefix, RecordId};
use crate::payment::{
    spec_new_payment, spec_set_peach_ids, spec_set_recurring_token, spec_update_status,
    InitiatePaymentRequest, Payment, PaymentStatus, PaymentView,
};
use crate::search::{first_index, lemma_first_index, lemma_first_index_is};
use crate::text::str_equal;
use crate::time::{current_time, Timestamp};

verus! {

/// The index of the first payment with the merchant transaction id `txn`,
/// or the number of payments when none has it.
pub open spec fn txn_index(payments: Seq<PaymentView>, txn: Seq<char>) -> int {
    first_index(payments, |p: PaymentView| p.merchant_transaction_id == txn)
}

/// The index of the first payment with the record id given, or the number
/// of payments when none has it.
pub open spec fn payment_index(payments: Seq<PaymentView>, id: RecordId) -> int {
    first_index(payments, |p: PaymentView| p.id == id)
}

/// Whether a payment has the merchant transaction id `txn`.
pub open spec fn has_txn(payments: Seq<PaymentView>, txn: Seq<char>) -> bool {
    txn_index(payments, txn) < payments.len()
}

/// Whether no two payments share a merchant transaction id.
pub open spec fn unique_txn_ids(payments: Seq<PaymentView>) -> bool {
    forall|i: int, j: int|
        0 <= i < j < payments.len() ==> (#[trigger] payments[i]).merchant_transaction_id != (
        #[trigger] payments[j]).merchant_transaction_id
}

/// The ledger after a payment was created from `request`: the payment is
/// appended, `Pending`. A request with an amount below zero or out of range
/// is refused, and so is a merchant transaction id that is in use.
pub open spec fn spec_create_payment(
    payments: Seq<PaymentView>,
    request: InitiatePaymentRequest,
    txn: Seq<char>,
    id: RecordId,
    now: Timestamp,
) -> Result<Seq<PaymentView>, BillingError> {
    if request.amount.mantissa < 0 {
        Err(BillingError::NegativeAmount)
    } else if !request.amount.wf() {
        Err(BillingError::AmountOutOfRange)
    } else if has_txn(payments, txn) {
        Err(BillingError::DuplicateTransactionId)
    } else {
        Ok(payments.push(spec_new_payment(request, txn, id, now)))
    }
}

/// The ledger after the payment `txn` was asked to move to `status`.
pub open spec fn spec_apply_status(
    payments: Seq<PaymentView>,
    txn: Seq<char>,
    status: PaymentStatus,
    failure_reason: Option<Seq<char>>,
    now: Timestamp,
) -> Result<Seq<PaymentView>, BillingError> {
    let i = txn_index(payments, txn);
    if i >= payments.len() {
        Err(BillingError::PaymentNotFound)
    } else {
        match spec_update_status(payments[i], status, failure_reason, now) {
            Ok(p) => Ok(payments.update(i, p)),
            Err(e) => Err(e),
        }
    }
}

/// The ledger after the gateway's checkout id was recorded for the payment
/// `txn`. The gateway's payment id is left as it is.
pub open spec fn spec_attach_checkout(
    payments: Seq<PaymentView>,
    txn: Seq<char>,
    checkout_id: Seq<char>,
    now: Timestamp,
) -> Result<Seq<PaymentView>, BillingError> {
    let i = txn_index(payments, txn);
    if i >= payments.len() {
        Err(BillingError::PaymentNotFound)
    } else {
        Ok(
            payments.update(
                i,
                spec_set_peach_ids(payments[i], Some(checkout_id), payments[i].peach_payment_id, now),
            ),
        )
    }
}

/// The ledger after the gateway's payment id was recorded for the payment
/// `txn`. The checkout id is left as it is.
pub open spec fn spec_attach_gateway_payment(
    payments: Seq<PaymentView>,
    txn: Seq<char>,
    payment_id: Seq<char>,
    now: Timestamp,
) -> Result<Seq<PaymentView>, BillingError> {
    let i = txn_index(payments, txn);
    if i >= payments.len() {
        Err(BillingError::PaymentNotFound)
    } else {
        Ok(
            payments.update(
                i,
                spec_set_peach_ids(payments[i], payments[i].peach_checkout_id, Some(payment_id), now),
            ),
        )
    }
}

/// The ledger after a recurring token was stored on the payment `txn`.
pub open spec fn spec_store_recurring_token(
    payments: Seq<PaymentView>,
    txn: Seq<char>,
    token: Seq<char>,
    now: Timestamp,
) -> Result<Seq<PaymentView>, BillingError> {
    let i = txn_index(payments, txn);
    if i >= payments.len() {
        Err(BillingError::PaymentNotFound)
    } else {
        Ok(payments.update(i, spec_set_recurring_token(payments[i], token, now)))
    }
}

/// Whether a call that returned `r` and left the ledger as `after` did what
/// `expected` asks of a ledger that was `before`.
pub open spec fn ledger_outcome(
    expected: Result<Seq<PaymentView>, BillingError>,
    r: Result<(), BillingError>,
    before: Seq<PaymentView>,
    after: Seq<PaymentView>,
) -> bool {
    match expected {
        Ok(v) => r.is_ok() && after == v,
        Err(e) => r == Err::<(), BillingError>(e) && after == before,
    }
}

/// Whether a creation that returned `r` and left the ledger as `after` did
/// what `expected` asks of a ledger that was `before`: on success the
/// payment returned is the one appended.
pub open spec fn creation_outcome(
    expected: Result<Seq<PaymentView>, BillingError>,
    r: Result<Payment, BillingError>,
    before: Seq<PaymentView>,
    after: Seq<PaymentView>,
) -> bool {
    match expected {
        Ok(v) => r.is_ok() && after == v && v.len() > 0 && r.unwrap()@ == v.last(),
        Err(e) => r.is_err() && r.unwrap_err() == e && after == before,
    }
}

/// The payments of one user, in the order in which they were created.
pub open spec fn spec_payments_of(payments: Seq<PaymentView>, user_id: RecordId) -> Seq<
    PaymentView,
> {
    payments.filter(|p: PaymentView| p.user_id == user_id)
}

/// One page of `items`, newest first: the page skips the `offset` newest
/// items and holds up to `limit` of those that follow.
pub open spec fn spec_page_items(items: Seq<PaymentView>, offset: int, limit: int) -> Seq<
    PaymentView,
> {
    let left = items.len() - offset;
    let count = if left <= 0 {
        0
    } else if left < limit {
        left
    } else {
        limit
    };
    Seq::new(count as nat, |k: int| items[items.len() - 1 - offset - k])
}

/// The query that is answered when none is given: the first page of twenty.
pub open spec fn spec_query(pagination: Option<PaginationQuery>) -> PaginationQuery {
    match pagination {
        Some(q) => q,
        None => PaginationQuery { page: Some(1), limit: Some(20) },
    }
}

/// The payments of the service.
#[derive(Debug)]
pub struct PaymentLedger {
    payments: Vec<Payment>,
}

impl View for PaymentLedger {
    type V = Seq<PaymentView>;

    closed spec fn view(&self) -> Seq<PaymentView> {
        Seq::new(self.payments@.len(), |i: int| self.payments@[i]@)
    }
}

/// Changing a payment without touching its merchant transaction id keeps
/// the ids of a ledger distinct.
pub proof fn lemma_update_keeps_unique(payments: Seq<PaymentView>, i: int, p: PaymentView)
    requires
        unique_txn_ids(payments),
        0 <= i < payments.len(),
        p.merchant_transaction_id == payments[i].merchant_transaction_id,
    ensures
        unique_txn_ids(payments.update(i, p)),
{
    let after = payments.update(i, p);
    assert forall|a: int, b: int| 0 <= a < b < after.len() implies (
    #[trigger] after[a]).merchant_transaction_id != (#[trigger] after[b]).merchant_transaction_id by {
        assert(payments[a].merchant_transaction_id != payments[b].merchant_transaction_id);
    }
}

/// Changing the payment `txn` without touching its merchant transaction id
/// leaves it where it is found.
pub proof fn lemma_txn_index_after_update(payments: Seq<PaymentView>, txn: Seq<char>, p: PaymentView)
    requires
        has_txn(payments, txn),
        p.merchant_transaction_id == txn,
    ensures
        txn_index(payments.update(txn_index(payments, txn), p), txn) == txn_index(payments, txn),
{
    let same = |q: PaymentView| q.merchant_transaction_id == txn;
    let i = txn_index(payments, txn);
    lemma_first_index(payments, same);
    let after = payments.update(i, p);
    assert forall|j: int| 0 <= j < i implies !same(#[trigger] after[j]) by {
        assert(after[j] == payments[j]);
    }
    lemma_first_index_is(after, same, i);
}

/// The payment found under `txn` has that merchant transaction id, and no
/// payment has it when none is found.
pub proof fn lemma_txn_index(payments: Seq<PaymentView>, txn: Seq<char>)
    ensures
        0 <= txn_index(payments, txn) <= payments.len(),
        has_txn(payments, txn) ==> payments[txn_index(payments, txn)].merchant_transaction_id
            == txn,
        forall|j: int|
            0 <= j < txn_index(payments, txn) ==> (#[trigger] payments[j]).merchant_transaction_id
                != txn,
{
    let same = |q: PaymentView| q.merchant_transaction_id == txn;
    lemma_first_index(payments, same);
    assert forall|j: int| 0 <= j < txn_index(payments, txn) implies (
    #[trigger] payments[j]).merchant_transaction_id != txn by {
        assert(!same(payments[j]));
    }
}

/// Appending a payment whose merchant transaction id is not in use keeps
/// the ids of a ledger distinct.
pub proof fn lemma_push_keeps_unique(payments: Seq<PaymentView>, p: PaymentView)
    requires
        unique_txn_ids(payments),
        !has_txn(payments, p.merchant_transaction_id),
    ensures
        unique_txn_ids(payments.push(p)),
{
    let after = payments.push(p);
    let same = |q: PaymentView| q.merchant_transaction_id == p.merchant_transaction_id;
    lemma_first_index(payments, same);
    assert forall|a: int, b: int| 0 <= a < b < after.len() implies (
    #[trigger] after[a]).merchant_transaction_id != (#[trigger] after[b]).merchant_transaction_id by {
        if b < payments.len() {
            assert(payments[a].merchant_transaction_id != payments[b].merchant_transaction_id);
        } else {
            assert(!same(payments[a]));
        }
    }
}

impl PaymentLedger {
    /// Whether no two payments of the ledger share a merchant transaction
    /// id.
    pub open spec fn wf(&self) -> bool {
        unique_txn_ids(self@)
    }

    /// A ledger without payments.
    pub fn new() -> (l: PaymentLedger)
        ensures
            l@ == Seq::<PaymentView>::empty(),
            l.wf(),
    {
        let l = PaymentLedger { payments: Vec::new() };
        assert(l@ =~= Seq::<PaymentView>::empty());
        l
    }

    /// The ledger that holds the records given, in their order. Records
    /// of which two share a merchant transaction id are refused.
    pub fn from_records(records: Vec<Payment>) -> (r: Result<PaymentLedger, BillingError>)
        ensures
            match r {
                Ok(l) => l.wf() && l@.len() == records@.len() && forall|i: int|
                    0 <= i < records@.len() ==> l@[i] == (#[trigger] records@[i])@,
                Err(e) => e == BillingError::DuplicateTransactionId && !unique_txn_ids(
                    Seq::new(records@.len(), |i: int| records@[i]@),
                ),
            },
    {
        let ledger = PaymentLedger { payments: records };
        let n = ledger.payments.len();
        let mut j: usize = 0;
        while j < n
            invariant
                n == ledger.payments@.len(),
                ledger.payments@ == records@,
                j <= n,
                forall|a: int, b: int|
                    0 <= a < b < j ==> (#[trigger] ledger@[a]).merchant_transaction_id != (
                    #[trigger] ledger@[b]).merchant_transaction_id,
            decreases n - j,
        {
            let mut i: usize = 0;
            while i < j
                invariant
                    n == ledger.payments@.len(),
                    ledger.payments@ == records@,
                    j < n,
                    i <= j,
                    forall|a: int|
                        0 <= a < i ==> (#[trigger] ledger@[a]).merchant_transaction_id
                            != ledger@[j as int].merchant_transaction_id,
                decreases j - i,
            {
                if str_equal(
                    ledger.payments[i].merchant_transaction_id.as_str(),
                    ledger.payments[j].merchant_transaction_id.as_str(),
                ) {
                    proof {
                        let all = Seq::new(records@.len(), |k: int| records@[k]@);
                        assert(all =~= ledger@);
                        assert(all[i as int].merchant_transaction_id
                            == all[j as int].merchant_transaction_id);
                    }
                    return Err(BillingError::DuplicateTransactionId);
                }
                i += 1;
            }
            j += 1;
        }
        Ok(ledger)
    }

    /// The number of payments.
    pub fn len(&self) -> (n: usize)
        ensures
            n == self@.len(),
    {
        self.payments.len()
    }

    /// Where the payment `txn` stands; see [`txn_index`].
    pub fn position(&self, txn: &str) -> (i: usize)
        ensures
            i == txn_index(self@, txn@),
            i <= self@.len(),
    {
        let n = self.payments.len();
        let mut i: usize = 0;
        while i < n && !str_equal(self.payments[i].merchant_transaction_id.as_str(), txn)
            invariant
                n == self.payments@.len(),
                i <= n,
                forall|j: int| 0 <= j < i ==> (#[trigger] self@[j]).merchant_transaction_id != txn@,
            decreases n - i,
        {
            i += 1;
        }
        proof {
            lemma_first_index_is(
                self@,
                |p: PaymentView| p.merchant_transaction_id == txn@,
                i as int,
            );
        }
        i
    }

    /// The payment at `index`.
    pub fn payment_at(&self, index: usize) -> (p: &Payment)
        requires
            index < self@.len(),
        ensures
            p@ == self@[index as int],
    {
        &self.payments[index]
    }

    /// The payment with the record id given, if there is one: the first
    /// of the ledger that has it.
    pub fn get_payment(&self, id: RecordId) -> (r: Option<&Payment>)
        ensures
            match r {
                Some(p) => payment_index(self@, id) < self@.len() && p@ == self@[payment_index(
                    self@,
                    id,
                )],
                None => payment_index(self@, id) >= self@.len(),
            },
    {
        let n = self.payments.len();
        let mut i: usize = 0;
        while i < n && self.payments[i].id != id
            invariant
                n == self.payments@.len(),
                i <= n,
                forall|j: int| 0 <= j < i ==> (#[trigger] self@[j]).id != id,
            decreases n - i,
        {
            i += 1;
        }
        proof {
            lemma_first_index_is(self@, |p: PaymentView| p.id == id, i as int);
        }
        if i < n {
            Some(&self.payments[i])
        } else {
            None
        }
    }

    /// The payment with the merchant transaction id `txn`, if there is one.
    pub fn get_payment_by_merchant_id(&self, txn: &str) -> (r: Option<&Payment>)
        ensures
            match r {
                Some(p) => has_txn(self@, txn@) && p@ == self@[txn_index(self@, txn@)],
                None => !has_txn(self@, txn@),
            },
    {
        let i = self.position(txn);
        if i < self.payments.len() {
            Some(&self.payments[i])
        } else {
            None
        }
    }

    /// Records the payment that `request` creates at `now` under the ids
    /// given, and returns a copy of it; see [`spec_create_payment`].
    pub fn create_payment_at(
        &mut self,
        request: InitiatePaymentRequest,
        merchant_transaction_id: String,
        id: RecordId,
        now: Timestamp,
    ) -> (r: Result<Payment, BillingError>)
        ensures
            creation_outcome(
                spec_create_payment(old(self)@, request, merchant_transaction_id@, id, now),
                r,
                old(self)@,
                final(self)@,
            ),
            old(self).wf() ==> final(self).wf(),
    {
        if request.amount.is_negative() {
            return Err(BillingError::NegativeAmount);
        }
        if !request.amount.is_well_formed() {
            return Err(BillingError::AmountOutOfRange);
        }
        if self.position(merchant_transaction_id.as_str()) < self.payments.len() {
            return Err(BillingError::DuplicateTransactionId);
        }
        match Payment::new_at(request, merchant_transaction_id, id, now) {
            Ok(payment) => {
                let copy = payment.clone();
                proof {
                    lemma_push_keeps_unique_if(old(self)@, payment@);
                }
                self.payments.push(payment);
                assert(self@ =~= old(self)@.push(copy@));
                Ok(copy)
            },
            Err(e) => Err(e),
        }
    }

    /// Records the payment that `request` creates now, under a fresh
    /// merchant transaction id and a fresh record id.
    pub fn create_payment(&mut self, request: InitiatePaymentRequest) -> (r: Result<
        Payment,
        BillingError,
    >)
        ensures
            exists|suffix: u128, id: RecordId, now: Timestamp|
                creation_outcome(
                    #[trigger] spec_create_payment(
                        old(self)@,
                        request,
                        txn_prefix() + simple_hex(suffix),
                        id,
                        now,
                    ),
                    r,
                    old(self)@,
                    final(self)@,
                ),
            old(self).wf() ==> final(self).wf(),
    {
        let suffix = random_u128();
        let id = RecordId::generate();
        let now = current_time();
        self.create_payment_at(request, merchant_transaction_id_from(suffix), id, now)
    }

    /// Moves the payment `txn` to `status`; see [`spec_apply_status`].
    /// Applying the status a payment already has changes nothing.
    pub fn apply_status(
        &mut self,
        txn: &str,
        status: PaymentStatus,
        failure_reason: Option<String>,
        now: Timestamp,
    ) -> (r: Result<(), BillingError>)
        ensures
            ledger_outcome(
                spec_apply_status(old(self)@, txn@, status, opt_view(failure_reason), now),
                r,
                old(self)@,
                final(self)@,
            ),
            old(self).wf() ==> final(self).wf(),
    {
        let i = self.position(txn);
        if i >= self.payments.len() {
            return Err(BillingError::PaymentNotFound);
        }
        let r = self.payments[i].update_status_at(status, failure_reason, now);
        proof {
            assert(old(self)@.update(i as int, old(self)@[i as int]) =~= old(self)@);
            assert(self@ =~= old(self)@.update(i as int, self.payments@[i as int]@));
            if old(self).wf() {
                lemma_update_keeps_unique(old(self)@, i as int, self.payments@[i as int]@);
            }
        }
        r
    }

    /// Records the gateway's checkout id for the payment `txn`; see
    /// [`spec_attach_checkout`].
    pub fn attach_checkout(&mut self, txn: &str, checkout_id: String, now: Timestamp) -> (r: Result<
        (),
        BillingError,
    >)
        ensures
            ledger_outcome(
                spec_attach_checkout(old(self)@, txn@, checkout_id@, now),
                r,
                old(self)@,
                final(self)@,
            ),
            old(self).wf() ==> final(self).wf(),
    {
        let i = self.position(txn);
        if i >= self.payments.len() {
            return Err(BillingError::PaymentNotFound);
        }
        let payment_id = self.payments[i].peach_payment_id.clone();
        self.payments[i].set_peach_ids_at(Some(checkout_id), payment_id, now);
        proof {
            assert(self@ =~= old(self)@.update(i as int, self.payments@[i as int]@));
            if old(self).wf() {
                lemma_update_keeps_unique(old(self)@, i as int, self.payments@[i as int]@);
            }
        }
        Ok(())
    }

    /// Records the gateway's payment id for the payment `txn`; see
    /// [`spec_attach_gateway_payment`].
    pub fn attach_gateway_payment(&mut self, txn: &str, payment_id: String, now: Timestamp) -> (r:
        Result<(), BillingError>)
        ensures
            ledger_outcome(
                spec_attach_gateway_payment(old(self)@, txn@, payment_id@, now),
                r,
                old(self)@,
                final(self)@,
            ),
            old(self).wf() ==> final(self).wf(),
    {
        let i = self.position(txn);
        if i >= self.payments.len() {
            return Err(BillingError::PaymentNotFound);
        }
        let checkout_id = self.payments[i].peach_checkout_id.clone();
        self.payments[i].set_peach_ids_at(checkout_id, Some(payment_id), now);
        proof {
            assert(self@ =~= old(self)@.update(i as int, self.payments@[i as int]@));
            if old(self).wf() {
                lemma_update_keeps_unique(old(self)@, i as int, self.payments@[i as int]@);
            }
        }
        Ok(())
    }

    /// Stores a recurring token on the payment `txn`, which marks it as
    /// recurring; see [`spec_store_recurring_token`].
    pub fn store_recurring_token(&mut self, txn: &str, token: String, now: Timestamp) -> (r:
        Result<(), BillingError>)
        ensures
            ledger_outcome(
                spec_store_recurring_token(old(self)@, txn@, token@, now),
                r,
                old(self)@,
                final(self)@,
            ),
            old(self).wf() ==> final(self).wf(),
    {
        let i = self.position(txn);
        if i >= self.payments.len() {
            return Err(BillingError::PaymentNotFound);
        }
        self.payments[i].set_recurring_token_at(token, now);
        proof {
            assert(self@ =~= old(self)@.update(i as int, self.payments@[i as int]@));
            if old(self).wf() {
                lemma_update_keeps_unique(old(self)@, i as int, self.payments@[i as int]@);
            }
        }
        Ok(())
    }

    /// The payments of one user, oldest first.
    pub fn get_payments_by_user(&self, user_id: RecordId) -> (found: Vec<Payment>)
        ensures
            found@.len() == spec_payments_of(self@, user_id).len(),
            forall|i: int|
                0 <= i < found@.len() ==> (#[trigger] found@[i])@ == spec_payments_of(
                    self@,
                    user_id,
                )[i],
    {
        let ghost wanted = |p: PaymentView| p.user_id == user_id;
        let mut found: Vec<Payment> = Vec::new();
        let n = self.payments.len();
        let mut i: usize = 0;
        proof {
            reveal(Seq::filter);
            assert(self@.take(0) =~= Seq::<PaymentView>::empty());
        }
        while i < n
            invariant
                n == self.payments@.len(),
                i <= n,
                wanted == |p: PaymentView| p.user_id == user_id,
                found@.len() == self@.take(i as int).filter(wanted).len(),
                forall|j: int|
                    0 <= j < found@.len() ==> (#[trigger] found@[j])@ == self@.take(
                        i as int,
                    ).filter(wanted)[j],
            decreases n - i,
        {
            proof {
                reveal(Seq::filter);
                let next = self@.take(i + 1);
                assert(next.drop_last() =~= self@.take(i as int));
                assert(next.last() == self@[i as int]);
            }
            if self.payments[i].user_id == user_id {
                found.push(self.payments[i].clone());
            }
            i += 1;
        }
        assert(self@.take(n as int) =~= self@);
        found
    }

    /// One page of the payments of a user, newest first. Without a query
    /// the first page of twenty is returned. `None` for page 0 and for a
    /// page size of 0, which do not exist, and for more payments than a
    /// page count can hold.
    pub fn get_payments_page(&self, user_id: RecordId, pagination: Option<PaginationQuery>) -> (r:
        Option<PaginatedResponse<Payment>>)
        ensures
            ({
                let q = spec_query(pagination);
                let all = spec_payments_of(self@, user_id);
                if spec_page(q) == 0 || spec_limit(q) == 0 || all.len() > u32::MAX {
                    r.is_none()
                } else {
                    &&& r.is_some()
                    &&& r.unwrap().total == all.len()
                    &&& r.unwrap().page == spec_page(q)
                    &&& r.unwrap().limit == spec_limit(q)
                    &&& r.unwrap().total_pages == spec_total_pages(
                        all.len() as int,
                        spec_limit(q) as int,
                    )
                    &&& r.unwrap().data@.len() == spec_page_items(
                        all,
                        spec_offset(q),
                        spec_limit(q) as int,
                    ).len()
                    &&& forall|i: int|
                        0 <= i < r.unwrap().data@.len() ==> (#[trigger] r.unwrap().data@[i])@
                            == spec_page_items(all, spec_offset(q), spec_limit(q) as int)[i]
                }
            }),
    {
        let query = match pagination {
            Some(q) => q,
            None => PaginationQuery { page: Some(1), limit: Some(20) },
        };
        let page = query.page_or_default();
        let limit = query.limit_or_default();
        let offset = match query.offset() {
            Some(offset) => offset,
            None => {
                return None;
            },
        };
        if limit == 0 {
            return None;
        }
        let all = self.get_payments_by_user(user_id);
        let total = all.len();
        if total > u32::MAX as usize {
            return None;
        }
        let ghost items = spec_payments_of(self@, user_id);
        let ghost wanted = spec_page_items(items, offset as int, limit as int);
        let mut data: Vec<Payment> = Vec::new();
        let mut k: u64 = 0;
        while k < limit as u64 && offset + k < total as u64
            invariant
                total == all@.len(),
                total == items.len(),
                total <= u32::MAX,
                offset <= 0xFFFF_FFFE_0000_0001,
                k <= limit,
                k <= wanted.len(),
                wanted == spec_page_items(items, offset as int, limit as int),
                forall|i: int| 0 <= i < total ==> (#[trigger] all@[i])@ == items[i],
                data@.len() == k,
                forall|i: int| 0 <= i < k ==> (#[trigger] data@[i])@ == wanted[i],
            decreases limit - k,
        {
            let index = total - 1 - ((offset + k) as usize);
            data.push(all[index].clone());
            k += 1;
        }
        assert(k == wanted.len());
        PaginatedResponse::new(data, total as u32, page, limit)
    }
}

/// [`lemma_push_keeps_unique`] for a ledger that may not be well formed.
proof fn lemma_push_keeps_unique_if(payments: Seq<PaymentView>, p: PaymentView)
    requires
        !has_txn(payments, p.merchant_transaction_id),
    ensures
        unique_txn_ids(payments) ==> unique_txn_ids(payments.push(p)),
{
    if unique_txn_ids(payments) {
        lemma_push_keeps_unique(payments, p);
    }
}

/// A payment that was created is `Pending`, stands last in the ledger, and
/// has a merchant transaction id that no payment created before it has;
/// the ids of the ledger stay distinct.
pub proof fn created_payment_is_pending_and_new(
    payments: Seq<PaymentView>,
    request: InitiatePaymentRequest,
    txn: Seq<char>,
    id: RecordId,
    now: Timestamp,
)
    requires
        spec_create_payment(payments, request, txn, id, now).is_ok(),
    ensures
        ({
            let after = spec_create_payment(payments, request, txn, id, now).unwrap();
            &&& after.len() == payments.len() + 1
            &&& after.last().status == PaymentStatus::Pending
            &&& after.last().merchant_transaction_id == txn
            &&& forall|i: int|
                0 <= i < payments.len() ==> (#[trigger] payments[i]).merchant_transaction_id != txn
            &&& forall|i: int| 0 <= i < payments.len() ==> after[i] == payments[i]
            &&& unique_txn_ids(payments) ==> unique_txn_ids(after)
        }),
{
    lemma_txn_index(payments, txn);
    let p = spec_new_payment(request, txn, id, now);
    lemma_push_keeps_unique_if(payments, p);
}

/// A request with an amount below zero creates nothing.
pub proof fn negative_amount_is_refused(
    payments: Seq<PaymentView>,
    request: InitiatePaymentRequest,
    txn: Seq<char>,
    id: RecordId,
    now: Timestamp,
)
    requires
        request.amount.mantissa < 0,
    ensures
        spec_create_payment(payments, request, txn, id, now) == Err::<
            Seq<PaymentView>,
            BillingError,
        >(BillingError::NegativeAmount),
{
}

/// Applying a status to a payment of the ledger is idempotent: after it
/// succeeded once, applying the same status again succeeds and changes
/// nothing.
pub proof fn apply_status_is_idempotent(
    payments: Seq<PaymentView>,
    txn: Seq<char>,
    status: PaymentStatus,
    first_reason: Option<Seq<char>>,
    first_time: Timestamp,
    second_reason: Option<Seq<char>>,
    second_time: Timestamp,
)
    ensures
        spec_apply_status(payments, txn, status, first_reason, first_time) matches Ok(after)
            ==> spec_apply_status(after, txn, status, second_reason, second_time) == Ok::<
            Seq<PaymentView>,
            BillingError,
        >(after),
{
    if let Ok(after) = spec_apply_status(payments, txn, status, first_reason, first_time) {
        let i = txn_index(payments, txn);
        lemma_txn_index(payments, txn);
        lemma_txn_index_after_update(payments, txn, after[i]);
        assert(after.update(i, after[i]) =~= after);
    }
}

/// A settled payment of the ledger keeps its status: the move from
/// `Failed` to `Completed`, like any move between two of `Completed`,
/// `Failed` and `Cancelled` and any return to `Pending`, is refused as an
/// invalid transition.
pub proof fn apply_status_rejects_illegal_transition(
    payments: Seq<PaymentView>,
    txn: Seq<char>,
    status: PaymentStatus,
    reason: Option<Seq<char>>,
    now: Timestamp,
)
    requires
        has_txn(payments, txn),
        ({
            let current = payments[txn_index(payments, txn)].status;
            current != status && ((crate::payment::spec_settles(current)
                && crate::payment::spec_settles(status)) || (current != PaymentStatus::Pending
                && status == PaymentStatus::Pending))
        }),
    ensures
        spec_apply_status(payments, txn, status, reason, now) == Err::<
            Seq<PaymentView>,
            BillingError,
        >(BillingError::InvalidPaymentTransition),
{
}

} // verus!
