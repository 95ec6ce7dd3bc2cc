use subscription_billing::common::{PaginationQuery, PaymentMethod, SubscriptionPlan};
use subscription_billing::error::{BillingError, ErrorKind};
use subscription_billing::ids::RecordId;
use subscription_billing::money::Amount;
use subscription_billing::payment::{InitiatePaymentRequest, PaymentStatus, PaymentType};
use subscription_billing::payment_ledger::PaymentLedger;
use subscription_billing::stats::{extract_count, get_statistics, DatabaseStats};
use subscription_billing::subscription::{CreateSubscriptionRequest, SubscriptionStatus};
use subscription_billing::subscription_ledger::SubscriptionLedger;
use subscription_billing::time::Timestamp;

const DAY: i64 = 86_400_000;

fn request(user: u128, amount: Amount) -> InitiatePaymentRequest {
    InitiatePaymentRequest {
        user_id: RecordId::from_u128(user),
        subscription_id: RecordId::from_u128(1000),
        amount,
        currency: None,
        payment_method: PaymentMethod::Card,
        enable_recurring: None,
        return_url: None,
        webhook_url: None,
    }
}

fn sub_request(user: u128) -> CreateSubscriptionRequest {
    CreateSubscriptionRequest {
        user_id: RecordId::from_u128(user),
        plan: SubscriptionPlan::Monthly,
        auto_renew: None,
        billing_cycle_anchor: None,
    }
}

#[test]
fn created_payments_are_pending_with_distinct_ids() {
    let mut ledger = PaymentLedger::new();
    let mut seen = std::collections::HashSet::new();
    for _ in 0..50 {
        let p = ledger.create_payment(request(1, Amount::new(100, 0))).unwrap();
        assert_eq!(p.status, PaymentStatus::Pending);
        assert!(p.merchant_transaction_id.starts_with("TXN_"));
        assert_eq!(p.merchant_transaction_id.len(), 4 + 32);
        assert!(p.merchant_transaction_id[4..]
            .chars()
            .all(|c| c.is_ascii_digit() || ('a'..='f').contains(&c)));
        assert!(seen.insert(p.merchant_transaction_id.clone()));
        let stored = ledger.get_payment_by_merchant_id(&p.merchant_transaction_id).unwrap();
        assert_eq!(stored.id, p.id);
    }
    assert_eq!(ledger.len(), 50);
}

#[test]
fn merchant_transaction_id_in_use_is_refused() {
    let mut ledger = PaymentLedger::new();
    let t = Timestamp::from_millis(0);
    ledger
        .create_payment_at(request(1, Amount::new(1, 0)), "TXN_same".into(), RecordId::from_u128(1), t)
        .unwrap();
    let err = ledger
        .create_payment_at(request(2, Amount::new(2, 0)), "TXN_same".into(), RecordId::from_u128(2), t)
        .unwrap_err();
    assert_eq!(err, BillingError::DuplicateTransactionId);
    assert_eq!(err.kind(), ErrorKind::Validation);
    assert_eq!(ledger.len(), 1);
    assert_eq!(ledger.payment_at(0).user_id, RecordId::from_u128(1));
}

#[test]
fn negative_amount_creates_nothing() {
    let mut ledger = PaymentLedger::new();
    let err = ledger.create_payment(request(1, Amount::new(-1, 0))).unwrap_err();
    assert_eq!(err, BillingError::NegativeAmount);
    assert_eq!(err.kind(), ErrorKind::Validation);
    assert_eq!(ledger.len(), 0);
}

#[test]
fn ledger_operations_on_an_unknown_payment_are_not_found() {
    let mut ledger = PaymentLedger::new();
    let t = Timestamp::from_millis(0);
    ledger
        .create_payment_at(request(1, Amount::new(1, 0)), "TXN_a".into(), RecordId::from_u128(1), t)
        .unwrap();
    assert_eq!(ledger.position("TXN_a"), 0);
    assert_eq!(ledger.position("TXN_b"), 1);
    assert!(ledger.get_payment_by_merchant_id("TXN_b").is_none());
    assert_eq!(
        ledger.attach_checkout("TXN_b", "c".into(), t),
        Err(BillingError::PaymentNotFound)
    );
    assert_eq!(
        ledger.attach_gateway_payment("TXN_b", "p".into(), t),
        Err(BillingError::PaymentNotFound)
    );
    assert_eq!(
        ledger.apply_status("TXN_b", PaymentStatus::Completed, None, t),
        Err(BillingError::PaymentNotFound)
    );
    assert_eq!(
        ledger.store_recurring_token("TXN_b", "r".into(), t),
        Err(BillingError::PaymentNotFound)
    );
    assert_eq!(BillingError::PaymentNotFound.kind(), ErrorKind::NotFound);
    assert_eq!(ledger.payment_at(0).status, PaymentStatus::Pending);
}

#[test]
fn checkout_and_gateway_ids_are_attached_separately() {
    let mut ledger = PaymentLedger::new();
    let t = Timestamp::from_millis(0);
    ledger
        .create_payment_at(request(1, Amount::new(1, 0)), "TXN_a".into(), RecordId::from_u128(1), t)
        .unwrap();
    ledger.attach_checkout("TXN_a", "chk".into(), Timestamp::from_millis(1)).unwrap();
    ledger.attach_gateway_payment("TXN_a", "pay".into(), Timestamp::from_millis(2)).unwrap();
    let p = ledger.payment_at(0);
    assert_eq!(p.peach_checkout_id, Some("chk".to_string()));
    assert_eq!(p.peach_payment_id, Some("pay".to_string()));
    assert_eq!(p.updated_at, Timestamp::from_millis(2));
    assert_eq!(p.merchant_transaction_id, "TXN_a");
    ledger.store_recurring_token("TXN_a", "reg".into(), Timestamp::from_millis(3)).unwrap();
    assert_eq!(ledger.payment_at(0).payment_type, PaymentType::Recurring);
}

#[test]
fn apply_status_twice_leaves_the_ledger_as_after_once() {
    let mut ledger = PaymentLedger::new();
    let t = Timestamp::from_millis(0);
    ledger
        .create_payment_at(request(1, Amount::new(1, 0)), "TXN_a".into(), RecordId::from_u128(1), t)
        .unwrap();
    ledger
        .create_payment_at(request(1, Amount::new(1, 0)), "TXN_b".into(), RecordId::from_u128(2), t)
        .unwrap();
    let first = Timestamp::from_millis(10);
    ledger.apply_status("TXN_b", PaymentStatus::Completed, None, first).unwrap();
    ledger
        .apply_status("TXN_b", PaymentStatus::Completed, Some("x".into()), Timestamp::from_millis(20))
        .unwrap();
    let b = ledger.get_payment_by_merchant_id("TXN_b").unwrap();
    assert_eq!(b.status, PaymentStatus::Completed);
    assert_eq!(b.updated_at, first);
    assert_eq!(b.completed_at, Some(first));
    assert_eq!(b.failure_reason, None);
    assert_eq!(ledger.payment_at(0).status, PaymentStatus::Pending);
}

#[test]
fn failed_payment_in_the_ledger_rejects_completed() {
    let mut ledger = PaymentLedger::new();
    let t = Timestamp::from_millis(0);
    ledger
        .create_payment_at(request(1, Amount::new(1, 0)), "TXN_a".into(), RecordId::from_u128(1), t)
        .unwrap();
    ledger.apply_status("TXN_a", PaymentStatus::Failed, Some("declined".into()), t).unwrap();
    let err = ledger
        .apply_status("TXN_a", PaymentStatus::Completed, None, Timestamp::from_millis(5))
        .unwrap_err();
    assert_eq!(err, BillingError::InvalidPaymentTransition);
    assert_eq!(err.kind(), ErrorKind::InvalidTransition);
    let p = ledger.payment_at(0);
    assert_eq!(p.status, PaymentStatus::Failed);
    assert_eq!(p.failure_reason, Some("declined".to_string()));
}

#[test]
fn payments_of_a_user_are_paged_newest_first() {
    let mut ledger = PaymentLedger::new();
    for i in 0..7u128 {
        let user = if i % 2 == 0 { 1 } else { 2 };
        ledger
            .create_payment_at(
                request(user, Amount::new(i as i64, 0)),
                format!("TXN_{}", i),
                RecordId::from_u128(i),
                Timestamp::from_millis(i as i64),
            )
            .unwrap();
    }
    let user = RecordId::from_u128(1);
    let all = ledger.get_payments_by_user(user);
    let ids: Vec<u128> = all.iter().map(|p| p.id.value).collect();
    assert_eq!(ids, vec![0, 2, 4, 6]);

    let page = ledger
        .get_payments_page(user, Some(PaginationQuery { page: Some(1), limit: Some(3) }))
        .unwrap();
    assert_eq!(page.total, 4);
    assert_eq!(page.page, 1);
    assert_eq!(page.limit, 3);
    assert_eq!(page.total_pages, 2);
    let ids: Vec<u128> = page.data.iter().map(|p| p.id.value).collect();
    assert_eq!(ids, vec![6, 4, 2]);

    let page = ledger
        .get_payments_page(user, Some(PaginationQuery { page: Some(2), limit: Some(3) }))
        .unwrap();
    let ids: Vec<u128> = page.data.iter().map(|p| p.id.value).collect();
    assert_eq!(ids, vec![0]);

    let page = ledger
        .get_payments_page(user, Some(PaginationQuery { page: Some(3), limit: Some(3) }))
        .unwrap();
    assert!(page.data.is_empty());
    assert_eq!(page.total, 4);

    let page = ledger.get_payments_page(user, None).unwrap();
    assert_eq!(page.page, 1);
    assert_eq!(page.limit, 20);
    assert_eq!(page.total_pages, 1);
    assert_eq!(page.data.len(), 4);

    assert!(ledger
        .get_payments_page(user, Some(PaginationQuery { page: Some(0), limit: Some(3) }))
        .is_none());
    assert!(ledger
        .get_payments_page(user, Some(PaginationQuery { page: Some(1), limit: Some(0) }))
        .is_none());
    let page = ledger
        .get_payments_page(user, Some(PaginationQuery { page: Some(u32::MAX), limit: Some(u32::MAX) }))
        .unwrap();
    assert!(page.data.is_empty());
    assert!(ledger.get_payments_by_user(RecordId::from_u128(3)).is_empty());
}

#[test]
fn subscription_ledger_finds_by_id() {
    let mut ledger = SubscriptionLedger::new();
    let a = ledger.create_subscription(sub_request(1)).unwrap();
    let b = ledger.create_subscription(sub_request(2)).unwrap();
    assert_ne!(a.id, b.id);
    assert_eq!(ledger.len(), 2);
    assert_eq!(ledger.position(b.id), 1);
    assert_eq!(ledger.get_subscription(b.id).unwrap().user_id, RecordId::from_u128(2));
    assert_eq!(ledger.subscription_at(0).id, a.id);
    assert!(ledger.get_subscription(RecordId::from_u128(12345)).is_none());
    let err = ledger
        .create_subscription_at(sub_request(3), a.id, Timestamp::from_millis(0))
        .unwrap_err();
    assert_eq!(err, BillingError::DuplicateRecord);
    assert_eq!(ledger.len(), 2);
}

#[test]
fn subscription_ledger_transitions() {
    let mut ledger = SubscriptionLedger::new();
    let id = RecordId::from_u128(1);
    let other = RecordId::from_u128(2);
    let t0 = Timestamp::from_millis(0);
    ledger.create_subscription_at(sub_request(1), id, t0).unwrap();
    ledger.create_subscription_at(sub_request(1), other, t0).unwrap();
    let unknown = RecordId::from_u128(3);
    assert_eq!(ledger.activate(unknown, t0, 7), Err(BillingError::SubscriptionNotFound));
    assert_eq!(ledger.renew(unknown, t0, 7), Err(BillingError::SubscriptionNotFound));
    assert_eq!(ledger.suspend(unknown, t0), Err(BillingError::SubscriptionNotFound));
    assert_eq!(ledger.cancel(unknown, t0), Err(BillingError::SubscriptionNotFound));
    assert_eq!(ledger.pause(unknown, t0), Err(BillingError::SubscriptionNotFound));
    assert_eq!(ledger.resume(unknown, t0), Err(BillingError::SubscriptionNotFound));
    assert_eq!(ledger.record_failed_renewal(unknown, t0), Err(BillingError::SubscriptionNotFound));
    assert_eq!(ledger.refresh_status(unknown, t0, 7), Err(BillingError::SubscriptionNotFound));
    assert_eq!(
        ledger.set_payment_details(unknown, PaymentMethod::Card, None, t0),
        Err(BillingError::SubscriptionNotFound)
    );
    assert_eq!(
        ledger.change_plan(unknown, SubscriptionPlan::Annual, None, t0).unwrap_err(),
        BillingError::SubscriptionNotFound
    );

    assert_eq!(ledger.renew(id, t0, 7), Err(BillingError::NotActiveOrGrace));
    ledger.activate(id, t0, 7).unwrap();
    assert_eq!(ledger.activate(id, t0, 7), Err(BillingError::NotPending));
    ledger.pause(id, Timestamp::from_millis(DAY)).unwrap();
    ledger.resume(id, Timestamp::from_millis(3 * DAY)).unwrap();
    ledger.renew(id, Timestamp::from_millis(4 * DAY), 7).unwrap();
    ledger.record_failed_renewal(id, Timestamp::from_millis(5 * DAY)).unwrap();
    ledger
        .set_payment_details(id, PaymentMethod::Eft, Some("OZOW".into()), Timestamp::from_millis(6 * DAY))
        .unwrap();
    let s = ledger.get_subscription(id).unwrap();
    assert_eq!(s.status, SubscriptionStatus::Active);
    assert_eq!(s.end_date, Some(Timestamp::from_millis(62 * DAY)));
    assert_eq!(s.renewal_attempts, 1);
    assert_eq!(s.payment_brand, Some("OZOW".to_string()));
    let p = ledger
        .change_plan(id, SubscriptionPlan::Annual, None, Timestamp::from_millis(10 * DAY))
        .unwrap();
    assert_eq!(p.days_used, 10);
    assert_eq!(ledger.get_subscription(id).unwrap().plan, SubscriptionPlan::Annual);
    ledger.suspend(id, Timestamp::from_millis(11 * DAY)).unwrap();
    ledger.cancel(id, Timestamp::from_millis(12 * DAY)).unwrap();
    assert_eq!(ledger.get_subscription(id).unwrap().status, SubscriptionStatus::Cancelled);
    // the other subscription was never touched
    let o = ledger.get_subscription(other).unwrap();
    assert_eq!(o.status, SubscriptionStatus::Pending);
    assert_eq!(o.updated_at, t0);
}

#[test]
fn sweep_suspends_only_what_is_unpaid_beyond_grace() {
    let mut ledger = SubscriptionLedger::new();
    let t0 = Timestamp::from_millis(0);
    for i in 0..4u128 {
        let id = RecordId::from_u128(i);
        ledger.create_subscription_at(sub_request(1), id, t0).unwrap();
    }
    ledger.activate(RecordId::from_u128(0), t0, 7).unwrap();
    ledger.activate(RecordId::from_u128(1), Timestamp::from_millis(20 * DAY), 7).unwrap();
    ledger.activate(RecordId::from_u128(2), t0, 7).unwrap();
    ledger.cancel(RecordId::from_u128(2), t0).unwrap();
    let now = Timestamp::from_millis(40 * DAY);
    assert_eq!(ledger.due_subscriptions(now, true), vec![RecordId::from_u128(0)]);
    let suspended = ledger.suspend_expired_unpaid(now);
    assert_eq!(suspended, vec![RecordId::from_u128(0)]);
    assert_eq!(ledger.subscription_at(0).status, SubscriptionStatus::Suspended);
    assert_eq!(ledger.subscription_at(1).status, SubscriptionStatus::Active);
    assert_eq!(ledger.subscription_at(2).status, SubscriptionStatus::Cancelled);
    assert_eq!(ledger.subscription_at(3).status, SubscriptionStatus::Pending);
    assert!(ledger.suspend_expired_unpaid(now).is_empty());
}

#[test]
fn subscriptions_of_a_user_and_statistics() {
    let mut subs = SubscriptionLedger::new();
    let t0 = Timestamp::from_millis(0);
    subs.create_subscription_at(sub_request(1), RecordId::from_u128(10), t0).unwrap();
    subs.create_subscription_at(sub_request(2), RecordId::from_u128(11), t0).unwrap();
    subs.create_subscription_at(sub_request(1), RecordId::from_u128(12), t0).unwrap();
    subs.activate(RecordId::from_u128(11), t0, 7).unwrap();
    subs.activate(RecordId::from_u128(12), t0, 7).unwrap();
    let mine = subs.get_subscriptions_by_user(RecordId::from_u128(1));
    assert_eq!(mine.len(), 2);
    assert_eq!(mine[0].id, RecordId::from_u128(10));
    assert_eq!(mine[1].id, RecordId::from_u128(12));
    assert_eq!(subs.count_with_status(SubscriptionStatus::Active), 2);
    assert_eq!(subs.count_with_status(SubscriptionStatus::Pending), 1);
    assert_eq!(subs.count_with_status(SubscriptionStatus::Expired), 0);
    let mut payments = PaymentLedger::new();
    payments.create_payment(request(1, Amount::new(1, 0))).unwrap();
    assert_eq!(
        get_statistics(5, &payments, &subs),
        DatabaseStats {
            total_users: 5,
            total_payments: 1,
            total_subscriptions: 3,
            active_subscriptions: 2
        }
    );
    assert_eq!(extract_count(&vec![]), 0);
    assert_eq!(extract_count(&vec![9, 4]), 9);
}

#[test]
fn ledgers_are_restored_from_records() {
    let mut payments = PaymentLedger::new();
    let t = Timestamp::from_millis(0);
    let a = payments
        .create_payment_at(request(1, Amount::new(1, 0)), "TXN_a".into(), RecordId::from_u128(1), t)
        .unwrap();
    let b = payments
        .create_payment_at(request(1, Amount::new(1, 0)), "TXN_b".into(), RecordId::from_u128(2), t)
        .unwrap();
    let restored = PaymentLedger::from_records(vec![a.clone(), b.clone()]).unwrap();
    assert_eq!(restored.len(), 2);
    assert_eq!(restored.position("TXN_b"), 1);
    assert_eq!(restored.get_payment(RecordId::from_u128(2)).unwrap().merchant_transaction_id, "TXN_b");
    assert!(restored.get_payment(RecordId::from_u128(3)).is_none());
    assert_eq!(
        PaymentLedger::from_records(vec![a.clone(), b, a]).unwrap_err(),
        BillingError::DuplicateTransactionId
    );
    assert_eq!(PaymentLedger::from_records(vec![]).unwrap().len(), 0);

    let mut subs = SubscriptionLedger::new();
    let s1 = subs.create_subscription_at(sub_request(1), RecordId::from_u128(1), t).unwrap();
    let s2 = subs.create_subscription_at(sub_request(1), RecordId::from_u128(2), t).unwrap();
    let restored = SubscriptionLedger::from_records(vec![s1.clone(), s2.clone()]).unwrap();
    assert_eq!(restored.position(RecordId::from_u128(2)), 1);
    assert_eq!(
        SubscriptionLedger::from_records(vec![s1.clone(), s1.clone()]).unwrap_err(),
        BillingError::DuplicateRecord
    );
    let mut broken = s2;
    broken.status = SubscriptionStatus::Active;
    assert_eq!(
        SubscriptionLedger::from_records(vec![s1, broken]).unwrap_err(),
        BillingError::DateOutOfRange
    );
}

#[test]
fn subscription_queries() {
    let mut subs = SubscriptionLedger::new();
    let t0 = Timestamp::from_millis(0);
    for i in 0..5u128 {
        let user = if i < 3 { 1 } else { 2 };
        subs.create_subscription_at(sub_request(user), RecordId::from_u128(i), t0).unwrap();
    }
    assert!(subs.get_active_subscription_by_user(RecordId::from_u128(1)).is_none());
    subs.activate(RecordId::from_u128(0), t0, 7).unwrap();
    subs.activate(RecordId::from_u128(1), Timestamp::from_millis(10 * DAY), 7).unwrap();
    subs.activate(RecordId::from_u128(4), Timestamp::from_millis(20 * DAY), 7).unwrap();
    assert_eq!(
        subs.get_active_subscription_by_user(RecordId::from_u128(1)).unwrap().id,
        RecordId::from_u128(1)
    );
    subs.cancel(RecordId::from_u128(1), t0).unwrap();
    assert_eq!(
        subs.get_active_subscription_by_user(RecordId::from_u128(1)).unwrap().id,
        RecordId::from_u128(0)
    );
    assert_eq!(
        subs.subscriptions_with_status(SubscriptionStatus::Active),
        vec![RecordId::from_u128(0), RecordId::from_u128(4)]
    );
    assert_eq!(
        subs.subscriptions_with_status(SubscriptionStatus::Pending),
        vec![RecordId::from_u128(2), RecordId::from_u128(3)]
    );
    let now = Timestamp::from_millis(25 * DAY);
    assert_eq!(subs.get_expiring_subscriptions(now, 5), vec![RecordId::from_u128(0)]);
    assert!(subs.get_expiring_subscriptions(now, 4).is_empty());
    assert_eq!(
        subs.get_expiring_subscriptions(now, 25),
        vec![RecordId::from_u128(0), RecordId::from_u128(4)]
    );
    assert_eq!(subs.get_expiring_subscriptions(now, i64::MAX).len(), 2);
    assert!(subs.get_expiring_subscriptions(now, i64::MIN).is_empty());
    assert!(subs.get_expired_unpaid_subscriptions(Timestamp::from_millis(37 * DAY)).is_empty());
    assert_eq!(
        subs.get_expired_unpaid_subscriptions(Timestamp::from_millis(37 * DAY + 1)),
        vec![RecordId::from_u128(0)]
    );
    let p = subs
        .change_billing_date(RecordId::from_u128(0), Timestamp::from_millis(40 * DAY), now)
        .unwrap();
    assert_eq!(p.days_remaining, 15);
    assert_eq!(
        subs.get_subscription(RecordId::from_u128(0)).unwrap().end_date,
        Some(Timestamp::from_millis(40 * DAY))
    );
    assert_eq!(
        subs.change_billing_date(RecordId::from_u128(77), now, now).unwrap_err(),
        BillingError::SubscriptionNotFound
    );
}
