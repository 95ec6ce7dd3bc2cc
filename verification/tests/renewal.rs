use subscription_billing::common::SubscriptionPlan;
use subscription_billing::error::BillingError;
use subscription_billing::ids::RecordId;
use subscription_billing::money::Amount;
use subscription_billing::notification::{CreateNotificationDto, NotificationMailbox};
use subscription_billing::recurring::{RecurringLedger, RecurringPaymentStatus};
use subscription_billing::renewal::{
    complete_sweep_at, finish_renewal, finish_renewal_at, plan_renewal, record_charge_result_at,
    start_renewal, start_renewal_at, ChargeAnswer, ChargeOutcome, RenewalCharge, RenewalResult,
};
use subscription_billing::subscription::{CreateSubscriptionRequest, SubscriptionStatus};
use subscription_billing::subscription_ledger::SubscriptionLedger;
use subscription_billing::time::Timestamp;

const DAY: i64 = 86_400_000;

struct Sweep {
    subscriptions: SubscriptionLedger,
    tokens: RecurringLedger,
    notifications: NotificationMailbox,
    user: RecordId,
    id: RecordId,
}

/// One monthly subscription, activated at time zero with seven days of
/// grace.
fn sweep() -> Sweep {
    let mut subscriptions = SubscriptionLedger::new();
    let user = RecordId::from_u128(0xa1);
    let id = RecordId::from_u128(0xb2);
    subscriptions
        .create_subscription_at(
            CreateSubscriptionRequest {
                user_id: user,
                plan: SubscriptionPlan::Monthly,
                auto_renew: None,
                billing_cycle_anchor: None,
            },
            id,
            Timestamp::from_millis(0),
        )
        .unwrap();
    subscriptions.activate(id, Timestamp::from_millis(0), 7).unwrap();
    Sweep {
        subscriptions,
        tokens: RecurringLedger::new(),
        notifications: NotificationMailbox::new(),
        user,
        id,
    }
}

#[test]
fn due_subscription_without_token_gets_a_notification_and_no_charge() {
    let mut s = sweep();
    let now = Timestamp::from_millis(31 * DAY);
    assert_eq!(s.subscriptions.due_subscriptions(now, true), vec![s.id]);
    let charge = start_renewal_at(
        &s.subscriptions,
        &s.tokens,
        &mut s.notifications,
        s.id,
        now,
        7,
        RecordId::from_u128(0xc3),
    )
    .unwrap();
    assert!(charge.is_none());
    assert_eq!(s.notifications.len(), 1);
    let note = s.notifications.notification_at(0);
    assert_eq!(note.user_id, s.user);
    assert_eq!(note.subscription_id, s.id);
    assert_eq!(note.id, RecordId::from_u128(0xc3));
    assert!(!note.acknowledged);
    assert_eq!(note.created_at, now);
    assert_eq!(
        note.message,
        "Your subscription 000000000000000000000000000000b2 is due for renewal"
    );
    // still within grace: the status is untouched and the sweep suspends nothing
    assert!(s.subscriptions.suspend_expired_unpaid(now).is_empty());
    assert_eq!(
        s.subscriptions.get_subscription(s.id).unwrap().status,
        SubscriptionStatus::Active
    );
    // once the grace period has passed as well, the sweep suspends it
    let later = Timestamp::from_millis(37 * DAY + 1);
    assert_eq!(s.subscriptions.suspend_expired_unpaid(later), vec![s.id]);
    let sub = s.subscriptions.get_subscription(s.id).unwrap();
    assert_eq!(sub.status, SubscriptionStatus::Suspended);
    assert_eq!(sub.updated_at, later);
}

#[test]
fn grace_end_itself_is_not_yet_suspended() {
    let mut s = sweep();
    assert!(s.subscriptions.suspend_expired_unpaid(Timestamp::from_millis(37 * DAY)).is_empty());
    assert!(!s.subscriptions.is_expired_unpaid(0, Timestamp::from_millis(37 * DAY)));
    assert!(s.subscriptions.is_expired_unpaid(0, Timestamp::from_millis(37 * DAY + 1)));
}

#[test]
fn end_date_itself_is_not_yet_due() {
    let s = sweep();
    assert!(s.subscriptions.due_subscriptions(Timestamp::from_millis(30 * DAY), true).is_empty());
    assert!(!s.subscriptions.is_due_for_renewal(0, Timestamp::from_millis(30 * DAY), true));
    assert!(s.subscriptions.is_due_for_renewal(0, Timestamp::from_millis(30 * DAY + 1), true));
}

#[test]
fn grace_subscriptions_are_due_only_where_the_policy_says_so() {
    let mut s = sweep();
    let now = Timestamp::from_millis(31 * DAY);
    s.subscriptions.refresh_status(s.id, now, 7).unwrap();
    assert_eq!(s.subscriptions.get_subscription(s.id).unwrap().status, SubscriptionStatus::Grace);
    assert_eq!(s.subscriptions.due_subscriptions(now, true), vec![s.id]);
    assert!(s.subscriptions.due_subscriptions(now, false).is_empty());
}

#[test]
fn stored_token_leads_to_a_charge() {
    let mut s = sweep();
    s.tokens.create_recurring_payment(
        s.user,
        s.id,
        "reg_token".to_string(),
        Some("4242".to_string()),
        Some("VISA".to_string()),
    );
    let now = Timestamp::from_millis(31 * DAY);
    let charge = start_renewal_at(
        &s.subscriptions,
        &s.tokens,
        &mut s.notifications,
        s.id,
        now,
        0xabcdef,
        RecordId::from_u128(1),
    )
    .unwrap()
    .unwrap();
    assert_eq!(charge.token, "reg_token");
    assert_eq!(charge.amount, Amount::new(10_000, 2));
    assert_eq!(charge.subscription_id, s.id);
    assert_eq!(charge.user_id, s.user);
    assert_eq!(charge.merchant_transaction_id, "RENEWAL_00000000000000000000000000abcdef");
    assert_eq!(s.notifications.len(), 0);
}

#[test]
fn fresh_renewal_ids_differ() {
    let mut s = sweep();
    s.tokens.create_recurring_payment(s.user, s.id, "t".to_string(), None, None);
    let a = start_renewal(&s.subscriptions, &s.tokens, &mut s.notifications, s.id)
        .unwrap()
        .unwrap();
    let b = start_renewal(&s.subscriptions, &s.tokens, &mut s.notifications, s.id)
        .unwrap()
        .unwrap();
    assert!(a.merchant_transaction_id.starts_with("RENEWAL_"));
    assert_eq!(a.merchant_transaction_id.len(), 8 + 32);
    assert_ne!(a.merchant_transaction_id, b.merchant_transaction_id);
}

#[test]
fn successful_charge_renews_from_the_old_end_date() {
    let mut s = sweep();
    s.tokens.create_recurring_payment(s.user, s.id, "t".to_string(), None, None);
    let now = Timestamp::from_millis(35 * DAY);
    let charge =
        start_renewal_at(&s.subscriptions, &s.tokens, &mut s.notifications, s.id, now, 1, s.id)
            .unwrap()
            .unwrap();
    let result = finish_renewal_at(
        &mut s.subscriptions,
        &mut s.notifications,
        &charge,
        &ChargeOutcome::Answered("000.100.110".to_string()),
        now,
        7,
        RecordId::from_u128(5),
    );
    assert_eq!(result, RenewalResult::Renewed);
    let sub = s.subscriptions.get_subscription(s.id).unwrap();
    assert_eq!(sub.status, SubscriptionStatus::Active);
    assert_eq!(sub.end_date, Some(Timestamp::from_millis(60 * DAY)));
    assert_eq!(sub.grace_end_date, Some(Timestamp::from_millis(67 * DAY)));
    assert_eq!(s.notifications.len(), 0);
    // renewed in this sweep: not suspended at its end
    assert!(s.subscriptions.suspend_expired_unpaid(now).is_empty());
}

#[test]
fn failed_charge_counts_an_attempt_and_notifies() {
    let mut s = sweep();
    s.tokens.create_recurring_payment(s.user, s.id, "t".to_string(), None, None);
    let now = Timestamp::from_millis(31 * DAY);
    let charge =
        start_renewal_at(&s.subscriptions, &s.tokens, &mut s.notifications, s.id, now, 1, s.id)
            .unwrap()
            .unwrap();
    for outcome in [
        ChargeOutcome::Answered("800.100.100".to_string()),
        ChargeOutcome::Answered("000.200.000".to_string()),
        ChargeOutcome::Unanswered,
    ] {
        assert!(!outcome.succeeded());
        let before = s.subscriptions.get_subscription(s.id).unwrap().clone();
        let notes = s.notifications.len();
        let result =
            finish_renewal(&mut s.subscriptions, &mut s.notifications, &charge, &outcome, 7);
        assert_eq!(result, RenewalResult::ManualRenewalRequested);
        let sub = s.subscriptions.get_subscription(s.id).unwrap();
        assert_eq!(sub.status, before.status);
        assert_eq!(sub.end_date, before.end_date);
        assert_eq!(sub.grace_end_date, before.grace_end_date);
        assert_eq!(sub.renewal_attempts, before.renewal_attempts + 1);
        assert_eq!(s.notifications.len(), notes + 1);
    }
    assert!(ChargeOutcome::Answered("000.000.000".to_string()).succeeded());
}

#[test]
fn no_charge_once_attempts_are_used_up_or_auto_renew_is_off() {
    let mut s = sweep();
    s.tokens.create_recurring_payment(s.user, s.id, "t".to_string(), None, None);
    let mut sub = s.subscriptions.get_subscription(s.id).unwrap().clone();
    assert!(plan_renewal(&sub, Some("t".to_string()), 1).is_some());
    assert!(plan_renewal(&sub, None, 1).is_none());
    sub.renewal_attempts = sub.max_renewal_attempts;
    assert!(plan_renewal(&sub, Some("t".to_string()), 1).is_none());
    sub.renewal_attempts = 0;
    sub.auto_renew = false;
    assert!(plan_renewal(&sub, Some("t".to_string()), 1).is_none());
}

#[test]
fn renewal_of_an_unknown_subscription_is_refused() {
    let mut s = sweep();
    let r = start_renewal(&s.subscriptions, &s.tokens, &mut s.notifications, RecordId::from_u128(5));
    assert_eq!(r.unwrap_err(), BillingError::SubscriptionNotFound);
    assert_eq!(s.notifications.len(), 0);
}

#[test]
fn successful_charge_for_a_cancelled_subscription_is_reported() {
    let mut s = sweep();
    s.tokens.create_recurring_payment(s.user, s.id, "t".to_string(), None, None);
    let now = Timestamp::from_millis(31 * DAY);
    let charge =
        start_renewal_at(&s.subscriptions, &s.tokens, &mut s.notifications, s.id, now, 1, s.id)
            .unwrap()
            .unwrap();
    s.subscriptions.cancel(s.id, now).unwrap();
    let result = record_charge_result_at(
        &mut s.subscriptions,
        &mut s.notifications,
        &charge,
        true,
        now,
        7,
        RecordId::from_u128(9),
    );
    assert_eq!(result, RenewalResult::RenewalRefused(BillingError::NotActiveOrGrace));
    assert_eq!(
        s.subscriptions.get_subscription(s.id).unwrap().status,
        SubscriptionStatus::Cancelled
    );
}

#[test]
fn token_of_a_user_is_the_first_active_one() {
    let mut tokens = RecurringLedger::new();
    let user = RecordId::from_u128(1);
    let other = RecordId::from_u128(2);
    let sub = RecordId::from_u128(3);
    assert_eq!(tokens.get_recurring_token_by_user(user), None);
    tokens.create_recurring_payment(other, sub, "other".to_string(), None, None);
    let first = tokens.create_recurring_payment_at(
        user,
        sub,
        "first".to_string(),
        Some("1111".to_string()),
        Some("VISA".to_string()),
        RecordId::from_u128(77),
    );
    tokens.create_recurring_payment(user, sub, "second".to_string(), None, None);
    assert_eq!(first.status, RecurringPaymentStatus::Active);
    assert_eq!(first.id, RecordId::from_u128(77));
    assert_eq!(first.card_last_four, Some("1111".to_string()));
    assert_eq!(tokens.get_recurring_token_by_user(user), Some("first".to_string()));
    assert_eq!(tokens.get_recurring_token_by_user(other), Some("other".to_string()));
    assert_eq!(tokens.len(), 3);
    let active = tokens.get_active_recurring_payments();
    assert_eq!(active.len(), 3);
    assert_eq!(active[1].recurring_token, "first");
}

#[test]
fn mailbox_lists_and_acknowledges() {
    let mut mailbox = NotificationMailbox::new();
    let user = RecordId::from_u128(1);
    let other = RecordId::from_u128(2);
    mailbox.create_manual_renewal_notification(user, RecordId::from_u128(10));
    mailbox.create_manual_renewal_notification_at(
        other,
        RecordId::from_u128(11),
        RecordId::from_u128(500),
        Timestamp::from_millis(3),
    );
    mailbox.create_notification_at(
        CreateNotificationDto {
            user_id: user,
            subscription_id: RecordId::from_u128(12),
            message: "hello".to_string(),
        },
        RecordId::from_u128(501),
        Timestamp::from_millis(4),
    );
    assert_eq!(mailbox.len(), 3);
    let mine = mailbox.get_user_notifications(user);
    assert_eq!(mine.len(), 2);
    assert_eq!(mine[1].message, "hello");
    assert_eq!(mine[0].subscription_id, RecordId::from_u128(10));
    assert!(mailbox.get_user_notifications(RecordId::from_u128(3)).is_empty());

    assert!(mailbox.acknowledge_notification(RecordId::from_u128(501)).is_ok());
    assert!(mailbox.notification_at(2).acknowledged);
    assert!(!mailbox.notification_at(1).acknowledged);
    assert_eq!(mailbox.len(), 3);
    assert_eq!(
        mailbox.acknowledge_notification(RecordId::from_u128(9999)),
        Err(BillingError::NotificationNotFound)
    );
}

#[test]
fn sweep_records_answers_before_it_suspends() {
    let mut subscriptions = SubscriptionLedger::new();
    let mut notifications = NotificationMailbox::new();
    let user = RecordId::from_u128(1);
    let t0 = Timestamp::from_millis(0);
    for i in 0..3u128 {
        let id = RecordId::from_u128(10 + i);
        subscriptions
            .create_subscription_at(
                CreateSubscriptionRequest {
                    user_id: user,
                    plan: SubscriptionPlan::Monthly,
                    auto_renew: None,
                    billing_cycle_anchor: None,
                },
                id,
                t0,
            )
            .unwrap();
        subscriptions.activate(id, t0, 7).unwrap();
    }
    let charge = |id: u128| RenewalCharge {
        subscription_id: RecordId::from_u128(id),
        user_id: user,
        token: "t".to_string(),
        amount: Amount::new(10_000, 2),
        merchant_transaction_id: format!("RENEWAL_{}", id),
    };
    let answers = vec![
        ChargeAnswer {
            charge: charge(10),
            outcome: ChargeOutcome::Answered("000.000.000".to_string()),
            notification_id: RecordId::from_u128(100),
        },
        ChargeAnswer {
            charge: charge(11),
            outcome: ChargeOutcome::Unanswered,
            notification_id: RecordId::from_u128(101),
        },
    ];
    // all three are past their grace period; the first is renewed in this sweep
    let now = Timestamp::from_millis(38 * DAY);
    let suspended =
        complete_sweep_at(&mut subscriptions, &mut notifications, &answers, now, 7);
    assert_eq!(suspended, vec![RecordId::from_u128(11), RecordId::from_u128(12)]);
    let renewed = subscriptions.get_subscription(RecordId::from_u128(10)).unwrap();
    assert_eq!(renewed.status, SubscriptionStatus::Active);
    assert_eq!(renewed.end_date, Some(Timestamp::from_millis(60 * DAY)));
    let failed = subscriptions.get_subscription(RecordId::from_u128(11)).unwrap();
    assert_eq!(failed.status, SubscriptionStatus::Suspended);
    assert_eq!(failed.renewal_attempts, 1);
    assert_eq!(
        subscriptions.get_subscription(RecordId::from_u128(12)).unwrap().status,
        SubscriptionStatus::Suspended
    );
    assert_eq!(notifications.len(), 1);
    assert_eq!(notifications.notification_at(0).id, RecordId::from_u128(101));
    assert_eq!(notifications.notification_at(0).subscription_id, RecordId::from_u128(11));
    // a second pass at the same instant changes nothing
    assert!(complete_sweep_at(&mut subscriptions, &mut notifications, &vec![], now, 7).is_empty());
}
