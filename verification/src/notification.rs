//! The mailbox of notifications.
//!
//! When a subscription cannot be renewed automatically its user is told to
//! renew by hand. Such messages are only ever appended; a user marks one
//! as read by acknowledging it.

use vstd::prelude::*;
use vstd::string::*;
use crate::error::BillingError;
use crate::ids::{simple_hex, RecordId};
use crate::search::{first_index, lemma_first_index_is};
use crate::time::{current_time, Timestamp};

verus! {

/// A message to a user about one of their subscriptions.
#[derive(Debug)]
pub struct Notification {
    pub id: RecordId,
    pub user_id: RecordId,
    pub subscription_id: RecordId,
    pub message: String,
    pub acknowledged: bool,
    pub created_at: Timestamp,
}

/// A notification as a mathematical value.
pub struct NotificationView {
    pub id: RecordId,
    pub user_id: RecordId,
    pub subscription_id: RecordId,
    pub message: Seq<char>,
    pub acknowledged: bool,
    pub created_at: Timestamp,
}

impl View for Notification {
    type V = NotificationView;

    open spec fn view(&self) -> NotificationView {
        NotificationView {
            id: self.id,
            user_id: self.user_id,
            subscription_id: self.subscription_id,
            message: self.message@,
            acknowledged: self.acknowledged,
            created_at: self.created_at,
        }
    }
}

impl Clone for Notification {
    fn clone(&self) -> (c: Self)
        ensures
            c@ == self@,
    {
        Notification {
            id: self.id,
            user_id: self.user_id,
            subscription_id: self.subscription_id,
            message: self.message.clone(),
            acknowledged: self.acknowledged,
            created_at: self.created_at,
        }
    }
}

/// What asks for a notification to be created.
#[derive(Debug)]
pub struct CreateNotificationDto {
    pub user_id: RecordId,
    pub subscription_id: RecordId,
    pub message: String,
}

/// What asks for a notification to be changed.
#[derive(Debug)]
pub struct UpdateNotificationDto {
    pub acknowledged: Option<bool>,
    pub message: Option<String>,
}

/// The text that tells a user to renew the subscription `subscription_id`.
pub open spec fn spec_renewal_message(subscription_id: RecordId) -> Seq<char> {
    "Your subscription "@ + simple_hex(subscription_id.value) + " is due for renewal"@
}

/// The notification that tells the user `user_id` at `now` to renew the
/// subscription `subscription_id`.
pub open spec fn spec_renewal_notification(
    id: RecordId,
    user_id: RecordId,
    subscription_id: RecordId,
    now: Timestamp,
) -> NotificationView {
    NotificationView {
        id,
        user_id,
        subscription_id,
        message: spec_renewal_message(subscription_id),
        acknowledged: false,
        created_at: now,
    }
}

/// The index of the first notification with the id given, or the number
/// of notifications when none has it.
pub open spec fn notification_index(notes: Seq<NotificationView>, id: RecordId) -> int {
    first_index(notes, |n: NotificationView| n.id == id)
}

/// The mailbox after the notification `id` was acknowledged.
pub open spec fn spec_acknowledge(notes: Seq<NotificationView>, id: RecordId) -> Result<
    Seq<NotificationView>,
    BillingError,
> {
    let i = notification_index(notes, id);
    if i >= notes.len() {
        Err(BillingError::NotificationNotFound)
    } else {
        Ok(notes.update(i, NotificationView { acknowledged: true, ..notes[i] }))
    }
}

/// The notifications of one user, in the order in which they were created.
pub open spec fn spec_for_user(notes: Seq<NotificationView>, user_id: RecordId) -> Seq<
    NotificationView,
> {
    notes.filter(|n: NotificationView| n.user_id == user_id)
}

/// The text that tells a user to renew the subscription `subscription_id`.
pub fn renewal_message(subscription_id: RecordId) -> (message: String)
    ensures
        message@ == spec_renewal_message(subscription_id),
{
    let mut message = String::from_str("Your subscription ");
    let digits = subscription_id.to_simple_string();
    message.append(digits.as_str());
    message.append(" is due for renewal");
    message
}

/// The notifications of the service.
#[derive(Debug)]
pub struct NotificationMailbox {
    notifications: Vec<Notification>,
}

impl View for NotificationMailbox {
    type V = Seq<NotificationView>;

    closed spec fn view(&self) -> Seq<NotificationView> {
        Seq::new(self.notifications@.len(), |i: int| self.notifications@[i]@)
    }
}

impl NotificationMailbox {
    /// A mailbox without notifications.
    pub fn new() -> (m: NotificationMailbox)
        ensures
            m@ == Seq::<NotificationView>::empty(),
    {
        let m = NotificationMailbox { notifications: Vec::new() };
        assert(m@ =~= Seq::<NotificationView>::empty());
        m
    }

    /// The mailbox that holds the records given, in their order.
    pub fn from_records(records: Vec<Notification>) -> (l: NotificationMailbox)
        ensures
            l@.len() == records@.len(),
            forall|i: int| 0 <= i < records@.len() ==> l@[i] == (#[trigger] records@[i])@,
    {
        NotificationMailbox { notifications: records }
    }

    /// The number of notifications.
    pub fn len(&self) -> (n: usize)
        ensures
            n == self@.len(),
    {
        self.notifications.len()
    }

    /// The notification at `index`.
    pub fn notification_at(&self, index: usize) -> (n: &Notification)
        requires
            index < self@.len(),
        ensures
            n@ == self@[index as int],
    {
        &self.notifications[index]
    }

    /// Appends a notification with the text given.
    pub fn create_notification_at(&mut self, dto: CreateNotificationDto, id: RecordId, now: Timestamp)
        ensures
            final(self)@ == old(self)@.push(
                NotificationView {
                    id,
                    user_id: dto.user_id,
                    subscription_id: dto.subscription_id,
                    message: dto.message@,
                    acknowledged: false,
                    created_at: now,
                },
            ),
    {
        let note = Notification {
            id,
            user_id: dto.user_id,
            subscription_id: dto.subscription_id,
            message: dto.message,
            acknowledged: false,
            created_at: now,
        };
        let ghost v = note@;
        self.notifications.push(note);
        assert(self@ =~= old(self)@.push(v));
    }

    /// Appends the notification that tells `user_id` to renew
    /// `subscription_id`; see [`spec_renewal_notification`].
    pub fn create_manual_renewal_notification_at(
        &mut self,
        user_id: RecordId,
        subscription_id: RecordId,
        id: RecordId,
        now: Timestamp,
    )
        ensures
            final(self)@ == old(self)@.push(
                spec_renewal_notification(id, user_id, subscription_id, now),
            ),
    {
        let dto = CreateNotificationDto {
            user_id,
            subscription_id,
            message: renewal_message(subscription_id),
        };
        self.create_notification_at(dto, id, now)
    }

    /// Appends, now and under a fresh random id, the notification that
    /// tells `user_id` to renew `subscription_id`.
    pub fn create_manual_renewal_notification(&mut self, user_id: RecordId, subscription_id: RecordId)
        ensures
            exists|id: RecordId, now: Timestamp|
                final(self)@ == old(self)@.push(
                    #[trigger] spec_renewal_notification(id, user_id, subscription_id, now),
                ),
    {
        let id = RecordId::generate();
        let now = current_time();
        self.create_manual_renewal_notification_at(user_id, subscription_id, id, now)
    }

    /// The notifications of one user, oldest first.
    pub fn get_user_notifications(&self, user_id: RecordId) -> (notes: Vec<Notification>)
        ensures
            notes@.len() == spec_for_user(self@, user_id).len(),
            forall|i: int|
                0 <= i < notes@.len() ==> (#[trigger] notes@[i])@ == spec_for_user(
                    self@,
                    user_id,
                )[i],
    {
        let ghost wanted = |n: NotificationView| n.user_id == user_id;
        let mut notes: Vec<Notification> = Vec::new();
        let n = self.notifications.len();
        let mut i: usize = 0;
        proof {
            reveal(Seq::filter);
            assert(self@.take(0) =~= Seq::<NotificationView>::empty());
        }
        while i < n
            invariant
                n == self.notifications@.len(),
                i <= n,
                wanted == |n: NotificationView| n.user_id == user_id,
                notes@.len() == self@.take(i as int).filter(wanted).len(),
                forall|j: int|
                    0 <= j < notes@.len() ==> (#[trigger] notes@[j])@ == self@.take(
                        i as int,
                    ).filter(wanted)[j],
            decreases n - i,
        {
            proof {
                reveal(Seq::filter);
                let next = self@.take(i + 1);
                assert(next.drop_last() =~= self@.take(i as int));
                assert(next.last() == self@[i as int]);
            }
            if self.notifications[i].user_id == user_id {
                notes.push(self.notifications[i].clone());
            }
            i += 1;
        }
        assert(self@.take(n as int) =~= self@);
        notes
    }

    /// Marks the notification `id` as read; see [`spec_acknowledge`].
    pub fn acknowledge_notification(&mut self, id: RecordId) -> (r: Result<(), BillingError>)
        ensures
            match spec_acknowledge(old(self)@, id) {
                Ok(v) => r.is_ok() && final(self)@ == v,
                Err(e) => r == Err::<(), BillingError>(e) && final(self)@ == old(self)@,
            },
    {
        let n = self.notifications.len();
        let mut i: usize = 0;
        while i < n && self.notifications[i].id != id
            invariant
                n == self.notifications@.len(),
                i <= n,
                forall|j: int| 0 <= j < i ==> (#[trigger] self@[j]).id != id,
            decreases n - i,
        {
            i += 1;
        }
        proof {
            lemma_first_index_is(self@, |n: NotificationView| n.id == id, i as int);
        }
        if i >= n {
            return Err(BillingError::NotificationNotFound);
        }
        self.notifications[i].acknowledged = true;
        assert(self@ =~= old(self)@.update(
            i as int,
            NotificationView { acknowledged: true, ..old(self)@[i as int] },
        ));
        Ok(())
    }
}

} // verus!
