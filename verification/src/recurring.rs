//! Stored payment methods.
//!
//! After a tokenised payment the gateway issues a registration id under
//! which the same method can be charged again. The service keeps it with
//! the user it belongs to; a renewal charges the first token of the user
//! that is still active.

use vstd::prelude::*;
use vstd::string::*;
use crate::common::opt_view;
use crate::ids::RecordId;
use crate::search::{first_index, lemma_first_index_is};

verus! {

/// Whether a stored token may still be charged.
#[derive(Clone, Copy, Debug, PartialEq, Eq, Structural)]
pub enum RecurringPaymentStatus {
    Active,
    Cancelled,
    Failed,
}

/// A token of the gateway, stored for a user.
#[derive(Debug)]
pub struct RecurringPayment {
    pub id: RecordId,
    pub user_id: RecordId,
    pub subscription_id: RecordId,
    /// The registration id under which the gateway charges the method.
    pub recurring_token: String,
    pub card_last_four: Option<String>,
    pub card_brand: Option<String>,
    pub status: RecurringPaymentStatus,
}

/// A stored token as a mathematical value.
pub struct RecurringPaymentView {
    pub id: RecordId,
    pub user_id: RecordId,
    pub subscription_id: RecordId,
    pub recurring_token: Seq<char>,
    pub card_last_four: Option<Seq<char>>,
    pub card_brand: Option<Seq<char>>,
    pub status: RecurringPaymentStatus,
}

impl View for RecurringPayment {
    type V = RecurringPaymentView;

    open spec fn view(&self) -> RecurringPaymentView {
        RecurringPaymentView {
            id: self.id,
            user_id: self.user_id,
            subscription_id: self.subscription_id,
            recurring_token: self.recurring_token@,
            card_last_four: opt_view(self.card_last_four),
            card_brand: opt_view(self.card_brand),
            status: self.status,
        }
    }
}

impl Clone for RecurringPayment {
    fn clone(&self) -> (c: Self)
        ensures
            c@ == self@,
    {
        RecurringPayment {
            id: self.id,
            user_id: self.user_id,
            subscription_id: self.subscription_id,
            recurring_token: self.recurring_token.clone(),
            card_last_four: self.card_last_four.clone(),
            card_brand: self.card_brand.clone(),
            status: self.status,
        }
    }
}

/// The index of the first active token of the user, or the number of
/// tokens when the user has none.
pub open spec fn token_index(tokens: Seq<RecurringPaymentView>, user_id: RecordId) -> int {
    first_index(
        tokens,
        |t: RecurringPaymentView| t.user_id == user_id && t.status == RecurringPaymentStatus::Active,
    )
}

/// The token under which the user can be charged: the first one stored
/// for the user that is active.
pub open spec fn spec_token_of(tokens: Seq<RecurringPaymentView>, user_id: RecordId) -> Option<
    Seq<char>,
> {
    if token_index(tokens, user_id) < tokens.len() {
        Some(tokens[token_index(tokens, user_id)].recurring_token)
    } else {
        None
    }
}

/// The tokens that are active, in the order in which they were stored.
pub open spec fn spec_active(tokens: Seq<RecurringPaymentView>) -> Seq<RecurringPaymentView> {
    tokens.filter(|t: RecurringPaymentView| t.status == RecurringPaymentStatus::Active)
}

/// The stored tokens of the service.
#[derive(Debug)]
pub struct RecurringLedger {
    records: Vec<RecurringPayment>,
}

impl View for RecurringLedger {
    type V = Seq<RecurringPaymentView>;

    closed spec fn view(&self) -> Seq<RecurringPaymentView> {
        Seq::new(self.records@.len(), |i: int| self.records@[i]@)
    }
}

impl RecurringLedger {
    /// A ledger without tokens.
    pub fn new() -> (l: RecurringLedger)
        ensures
            l@ == Seq::<RecurringPaymentView>::empty(),
    {
        let l = RecurringLedger { records: Vec::new() };
        assert(l@ =~= Seq::<RecurringPaymentView>::empty());
        l
    }

    /// The ledger that holds the records given, in their order.
    pub fn from_records(records: Vec<RecurringPayment>) -> (l: RecurringLedger)
        ensures
            l@.len() == records@.len(),
            forall|i: int| 0 <= i < records@.len() ==> l@[i] == (#[trigger] records@[i])@,
    {
        RecurringLedger { records: records }
    }

    /// The number of tokens.
    pub fn len(&self) -> (n: usize)
        ensures
            n == self@.len(),
    {
        self.records.len()
    }

    /// Stores an active token for a user under the id given, and returns
    /// a copy of the record.
    pub fn create_recurring_payment_at(
        &mut self,
        user_id: RecordId,
        subscription_id: RecordId,
        token: String,
        card_last_four: Option<String>,
        card_brand: Option<String>,
        id: RecordId,
    ) -> (r: RecurringPayment)
        ensures
            r@ == (RecurringPaymentView {
                id,
                user_id,
                subscription_id,
                recurring_token: token@,
                card_last_four: opt_view(card_last_four),
                card_brand: opt_view(card_brand),
                status: RecurringPaymentStatus::Active,
            }),
            final(self)@ == old(self)@.push(r@),
    {
        let record = RecurringPayment {
            id,
            user_id,
            subscription_id,
            recurring_token: token,
            card_last_four,
            card_brand,
            status: RecurringPaymentStatus::Active,
        };
        let copy = record.clone();
        self.records.push(record);
        assert(self@ =~= old(self)@.push(copy@));
        copy
    }

    /// Stores an active token for a user under a fresh random id.
    pub fn create_recurring_payment(
        &mut self,
        user_id: RecordId,
        subscription_id: RecordId,
        token: String,
        card_last_four: Option<String>,
        card_brand: Option<String>,
    ) -> (r: RecurringPayment)
        ensures
            r@.user_id == user_id,
            r@.subscription_id == subscription_id,
            r@.recurring_token == token@,
            r@.card_last_four == opt_view(card_last_four),
            r@.card_brand == opt_view(card_brand),
            r@.status == RecurringPaymentStatus::Active,
            final(self)@ == old(self)@.push(r@),
    {
        let id = RecordId::generate();
        self.create_recurring_payment_at(
            user_id,
            subscription_id,
            token,
            card_last_four,
            card_brand,
            id,
        )
    }

    /// The token under which the user can be charged, if one is stored;
    /// see [`spec_token_of`].
    pub fn get_recurring_token_by_user(&self, user_id: RecordId) -> (r: Option<String>)
        ensures
            opt_view(r) == spec_token_of(self@, user_id),
    {
        let n = self.records.len();
        let mut i: usize = 0;
        while i < n && !(self.records[i].user_id == user_id && self.records[i].status
            == RecurringPaymentStatus::Active)
            invariant
                n == self.records@.len(),
                i <= n,
                forall|j: int|
                    0 <= j < i ==> !((#[trigger] self@[j]).user_id == user_id && self@[j].status
                        == RecurringPaymentStatus::Active),
            decreases n - i,
        {
            i += 1;
        }
        proof {
            lemma_first_index_is(
                self@,
                |t: RecurringPaymentView|
                    t.user_id == user_id && t.status == RecurringPaymentStatus::Active,
                i as int,
            );
        }
        if i < n {
            Some(self.records[i].recurring_token.clone())
        } else {
            None
        }
    }

    /// The tokens that are active, oldest first.
    pub fn get_active_recurring_payments(&self) -> (active: Vec<RecurringPayment>)
        ensures
            active@.len() == spec_active(self@).len(),
            forall|i: int|
                0 <= i < active@.len() ==> (#[trigger] active@[i])@ == spec_active(self@)[i],
    {
        let ghost wanted = |t: RecurringPaymentView| t.status == RecurringPaymentStatus::Active;
        let mut active: Vec<RecurringPayment> = Vec::new();
        let n = self.records.len();
        let mut i: usize = 0;
        proof {
            reveal(Seq::filter);
            assert(self@.take(0) =~= Seq::<RecurringPaymentView>::empty());
        }
        while i < n
            invariant
                n == self.records@.len(),
                i <= n,
                wanted == |t: RecurringPaymentView| t.status == RecurringPaymentStatus::Active,
                active@.len() == self@.take(i as int).filter(wanted).len(),
                forall|j: int|
                    0 <= j < active@.len() ==> (#[trigger] active@[j])@ == self@.take(
                        i as int,
                    ).filter(wanted)[j],
            decreases n - i,
        {
            proof {
                reveal(Seq::filter);
                let next = self@.take(i + 1);
                assert(next.drop_last() =~= self@.take(i as int));
                assert(next.last() == self@[i as int]);
            }
            if self.records[i].status == RecurringPaymentStatus::Active {
                active.push(self.records[i].clone());
            }
            i += 1;
        }
        assert(self@.take(n as int) =~= self@);
        active
    }
}

} // verus!
