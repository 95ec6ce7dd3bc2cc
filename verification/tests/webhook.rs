use hmac::Mac;
use subscription_billing::common::{PaymentMethod, SubscriptionPlan};
use subscription_billing::config::{PeachConfig, SignatureScheme};
use subscription_billing::error::BillingError;
use subscription_billing::form::FormData;
use subscription_billing::gateway::PeachPaymentService;
use subscription_billing::ids::RecordId;
use subscription_billing::money::Amount;
use subscription_billing::payment::{InitiatePaymentRequest, PaymentStatus, PaymentType};
use subscription_billing::payment_ledger::PaymentLedger;
use subscription_billing::signature::{
    calculate_signature, create_signature_payload, validate_signature,
};
use subscription_billing::subscription::{CreateSubscriptionRequest, SubscriptionStatus};
use subscription_billing::subscription_ledger::SubscriptionLedger;
use subscription_billing::time::Timestamp;
use subscription_billing::webhook::{
    answer_webhook, handle_webhook, handle_webhook_under, ingest_event, payment_callback,
    payment_method_from_brand, payment_method_from_lowercase_brand, verify_webhook,
    verify_webhook_raw, PaymentDisposition, PaymentWebhookPayload, SubscriptionDisposition,
    WebhookEvent, WebhookResult,
};

const DAY: i64 = 86_400_000;
const SECRET: &str = "test_webhook_secret";

fn create_test_config() -> PeachConfig {
    PeachConfig {
        auth_service_url: "https://test-auth.peach.com".to_string(),
        checkout_endpoint: "https://test-checkout.peach.com".to_string(),
        status_endpoint: "https://test-status.peach.com".to_string(),
        client_id: "test_client".to_string(),
        client_secret: "test_secret".to_string(),
        merchant_id: "test_merchant".to_string(),
        entity_id: "test_entity".to_string(),
        webhook_secret: "test_webhook_secret".to_string(),
        notification_url: "https://example.com/webhook".to_string(),
        shopper_result_url: "https://example.com/result".to_string(),
        origin_domain: "https://example.com".to_string(),
    }
}

fn hmac_hex(key: &[u8], payload: &[u8]) -> String {
    let mut mac = hmac::Hmac::<sha2::Sha256>::new_from_slice(key).unwrap();
    mac.update(payload);
    hex::encode(mac.finalize().into_bytes())
}

/// A signed body for the fields given, written out in the order given.
fn signed_body(fields: &[(&str, &str)], secret: &str) -> Vec<u8> {
    let mut sorted: Vec<(&str, &str)> = fields.to_vec();
    sorted.sort_by(|a, b| a.0.cmp(b.0));
    let mut payload = String::new();
    for (k, v) in &sorted {
        payload.push_str(k);
        payload.push_str(v);
    }
    let signature = hmac_hex(secret.as_bytes(), payload.as_bytes());
    let mut all: Vec<(&str, &str)> = fields.to_vec();
    all.push(("signature", &signature));
    serde_urlencoded::to_string(&all).unwrap().into_bytes()
}

struct World {
    payments: PaymentLedger,
    subscriptions: SubscriptionLedger,
    subscription_id: RecordId,
    user_id: RecordId,
    txn: String,
}

fn world(start: i64) -> World {
    let mut subscriptions = SubscriptionLedger::new();
    let mut payments = PaymentLedger::new();
    let user_id = RecordId::from_u128(11);
    let subscription = subscriptions
        .create_subscription_at(
            CreateSubscriptionRequest {
                user_id,
                plan: SubscriptionPlan::Monthly,
                auto_renew: Some(true),
                billing_cycle_anchor: None,
            },
            RecordId::from_u128(22),
            Timestamp::from_millis(start),
        )
        .unwrap();
    let payment = payments
        .create_payment_at(
            InitiatePaymentRequest {
                user_id,
                subscription_id: subscription.id,
                amount: Amount::new(10_000, 2),
                currency: None,
                payment_method: PaymentMethod::Card,
                enable_recurring: Some(true),
                return_url: None,
                webhook_url: None,
            },
            "TXN_0123456789abcdef".to_string(),
            RecordId::from_u128(33),
            Timestamp::from_millis(start),
        )
        .unwrap();
    World {
        payments,
        subscriptions,
        subscription_id: subscription.id,
        user_id,
        txn: payment.merchant_transaction_id,
    }
}

#[test]
fn test_webhook_signature_validation() {
    let config = create_test_config();
    let service = PeachPaymentService::new(config);

    let payload = b"test payload";
    let key = b"test_webhook_secret";

    let mut mac = hmac::Hmac::<sha2::Sha256>::new_from_slice(key).unwrap();
    mac.update(payload);
    let valid_signature = hex::encode(mac.finalize().into_bytes());

    assert!(service.validate_webhook_signature(payload, &valid_signature));
    assert!(!service.validate_webhook_signature(payload, "invalid_signature"));
}

#[test]
fn signature_is_the_known_hmac_sha256() {
    // RFC 4231, test case 2
    let signature = calculate_signature("Jefe", b"what do ya want for nothing?").unwrap();
    assert_eq!(signature, "5bdcc146bf60754e6a042426089575c75a003f089d2739839dec58b964ec3843");
    let service = PeachPaymentService::new(create_test_config());
    assert_eq!(
        service.calculate_signature(b"test payload"),
        Some(hmac_hex(b"test_webhook_secret", b"test payload"))
    );
}

#[test]
fn signature_is_deterministic_and_sensitive_to_every_character() {
    let payload = "merchantTransactionIdTXN_1result.code000.000.000";
    let first = calculate_signature(SECRET, payload.as_bytes()).unwrap();
    let second = calculate_signature(SECRET, payload.as_bytes()).unwrap();
    assert_eq!(first, second);
    assert_eq!(first.len(), 64);
    assert!(validate_signature(SECRET, payload.as_bytes(), &first));
    let bytes = payload.as_bytes();
    for i in 0..bytes.len() {
        let mut flipped = bytes.to_vec();
        flipped[i] ^= 0x01;
        assert_ne!(calculate_signature(SECRET, &flipped).unwrap(), first);
        assert!(!validate_signature(SECRET, &flipped, &first));
    }
    assert!(!validate_signature("another secret", bytes, &first));
    assert!(!validate_signature(SECRET, bytes, &first.to_uppercase()));
}

#[test]
fn canonical_payload_sorts_keys_and_leaves_out_the_signature() {
    let form = FormData::parse(b"result.code=000.000.000&signature=abc&id=8ac7&amount=100.00")
        .unwrap();
    assert_eq!(create_signature_payload(&form), "amount100.00id8ac7result.code000.000.000");
    assert_eq!(form.len(), 4);
    assert_eq!(form.get("signature"), Some(&"abc".to_string()));
    assert_eq!(form.get("missing"), None);
    assert_eq!(create_signature_payload(&FormData::new()), "");
}

#[test]
fn form_keeps_the_last_value_of_a_repeated_key() {
    let form = FormData::parse(b"b=1&a=2&b=3").unwrap();
    assert_eq!(form.len(), 2);
    assert_eq!(form.get("b"), Some(&"3".to_string()));
    assert_eq!(form.key_at(0), "a");
    assert_eq!(form.key_at(1), "b");
    assert_eq!(form.value_at(1), "3");
    assert_eq!(create_signature_payload(&form), "a2b3");
}

#[test]
fn form_decodes_percent_escapes_and_plus() {
    let form = FormData::parse(b"customParameters%5Bsubscription_id%5D=sub+1&k=%41%C3%A9").unwrap();
    assert_eq!(form.get("customParameters[subscription_id]"), Some(&"sub 1".to_string()));
    assert_eq!(form.get("k"), Some(&"A\u{e9}".to_string()));
}

#[test]
fn form_orders_keys_by_bytes() {
    let mut form = FormData::new();
    form.insert("b".to_string(), "2".to_string());
    form.insert("B".to_string(), "1".to_string());
    form.insert("a".to_string(), "3".to_string());
    form.insert("ab".to_string(), "4".to_string());
    form.insert("\u{e9}".to_string(), "5".to_string());
    form.insert("a".to_string(), "6".to_string());
    assert_eq!(form.len(), 5);
    assert_eq!(create_signature_payload(&form), "B1a6ab4b2\u{e9}5");
    let pairs = vec![("z".to_string(), "1".to_string()), ("y".to_string(), "2".to_string())];
    assert_eq!(create_signature_payload(&FormData::from_pairs(&pairs)), "y2z1");
}

#[test]
fn body_that_is_not_utf8_is_malformed() {
    assert_eq!(FormData::parse(&[0xff, 0xfe, b'=', b'1']).unwrap_err(), BillingError::MalformedBody);
    assert_eq!(verify_webhook(&[0xc3, 0x28], SECRET).unwrap_err(), BillingError::MalformedBody);
}

#[test]
fn webhook_without_signature_is_refused() {
    assert_eq!(
        verify_webhook(b"result.code=000.000.000", SECRET).unwrap_err(),
        BillingError::MissingSignature
    );
    assert_eq!(
        verify_webhook(b"result.code=000.000.000&signature=", SECRET).unwrap_err(),
        BillingError::MissingSignature
    );
}

#[test]
fn tampered_result_code_does_not_verify() {
    let body = signed_body(
        &[("result.code", "800.100.100"), ("merchantTransactionId", "TXN_1")],
        SECRET,
    );
    assert!(verify_webhook(&body, SECRET).is_ok());
    let tampered = String::from_utf8(body).unwrap().replace("800.100.100", "000.000.000");
    assert_eq!(
        verify_webhook(tampered.as_bytes(), SECRET).unwrap_err(),
        BillingError::SignatureMismatch
    );
}

#[test]
fn verification_does_not_depend_on_the_order_of_the_fields() {
    let a = signed_body(&[("b", "2"), ("a", "1"), ("c", "3")], SECRET);
    let form = verify_webhook(&a, SECRET).unwrap();
    assert_eq!(form.get("a"), Some(&"1".to_string()));
    let text = String::from_utf8(a).unwrap();
    let mut parts: Vec<&str> = text.split('&').collect();
    parts.reverse();
    let reordered = parts.join("&");
    assert!(verify_webhook(reordered.as_bytes(), SECRET).is_ok());
    assert_eq!(
        verify_webhook(reordered.as_bytes(), "other").unwrap_err(),
        BillingError::SignatureMismatch
    );
}

#[test]
fn event_is_parsed_once_into_typed_fields() {
    let form = FormData::parse(
        b"result.code=000.100.110&merchantTransactionId=TXN_9&customParameters%5Bsubscription_id%5D=s1&id=pay_1&paymentBrand=VISA&registrationId=r1",
    )
    .unwrap();
    let event = WebhookEvent::parse(&form).unwrap();
    assert_eq!(event.result_code, "000.100.110");
    assert_eq!(event.merchant_transaction_id, "TXN_9");
    assert_eq!(event.subscription_id, Some("s1".to_string()));
    assert_eq!(event.payment_id, Some("pay_1".to_string()));
    assert_eq!(event.payment_brand, Some("VISA".to_string()));
    assert_eq!(event.registration_id, Some("r1".to_string()));
    assert_eq!(event.target_status(), PaymentStatus::Completed);
}

#[test]
fn subscription_id_is_read_from_either_spelling_of_its_key() {
    let mut literal = FormData::new();
    literal.insert("result.code".to_string(), "000.000.000".to_string());
    literal.insert("merchantTransactionId".to_string(), "T".to_string());
    literal.insert("customParameters[subscription_id]".to_string(), "lit".to_string());
    assert_eq!(WebhookEvent::parse(&literal).unwrap().subscription_id, Some("lit".to_string()));
    let mut encoded = FormData::new();
    encoded.insert("result.code".to_string(), "000.000.000".to_string());
    encoded.insert("merchantTransactionId".to_string(), "T".to_string());
    encoded.insert("customParameters%5Bsubscription_id%5D".to_string(), "enc".to_string());
    assert_eq!(WebhookEvent::parse(&encoded).unwrap().subscription_id, Some("enc".to_string()));
    encoded.insert("customParameters[subscription_id]".to_string(), "lit".to_string());
    assert_eq!(WebhookEvent::parse(&encoded).unwrap().subscription_id, Some("lit".to_string()));
}

#[test]
fn event_without_required_fields_is_refused() {
    let form = FormData::parse(b"result.code=000.000.000").unwrap();
    assert_eq!(WebhookEvent::parse(&form).unwrap_err(), BillingError::MissingField);
    let form = FormData::parse(b"merchantTransactionId=T").unwrap();
    assert_eq!(WebhookEvent::parse(&form).unwrap_err(), BillingError::MissingField);
}

#[test]
fn brands_map_to_payment_methods() {
    assert_eq!(payment_method_from_brand("VISA"), PaymentMethod::Card);
    assert_eq!(payment_method_from_brand("MasterCard"), PaymentMethod::Card);
    assert_eq!(payment_method_from_brand("Ozow"), PaymentMethod::Eft);
    assert_eq!(payment_method_from_brand("EFT"), PaymentMethod::Eft);
    assert_eq!(payment_method_from_brand("1VOUCHER"), PaymentMethod::OneVoucher);
    assert_eq!(payment_method_from_brand("1ForYou"), PaymentMethod::OneVoucher);
    assert_eq!(payment_method_from_brand("SCAN_TO_PAY"), PaymentMethod::ScanToPay);
    assert_eq!(payment_method_from_brand("Masterpass"), PaymentMethod::ScanToPay);
    assert_eq!(payment_method_from_brand("ScanToPay"), PaymentMethod::ScanToPay);
    assert_eq!(payment_method_from_brand("something new"), PaymentMethod::Card);
    // the exact function takes the brand in lowercase
    assert_eq!(payment_method_from_lowercase_brand("eft"), PaymentMethod::Eft);
    assert_eq!(payment_method_from_lowercase_brand("EFT"), PaymentMethod::Card);
}

#[test]
fn completed_webhook_activates_the_subscription() {
    let start = 1_700_000_000_000;
    let mut w = world(start);
    let body = signed_body(
        &[
            ("result.code", "000.000.000"),
            ("merchantTransactionId", &w.txn),
            ("paymentBrand", "VISA"),
        ],
        SECRET,
    );
    let now = Timestamp::from_millis(start + 1_000);
    let response = handle_webhook(&mut w.payments, &mut w.subscriptions, &body, SECRET, now, 7);
    assert_eq!(response.status, 200);
    assert_eq!(response.body(), "Webhook received");
    assert_eq!(response.error, None);
    let outcome = response.outcome.unwrap();
    assert_eq!(outcome.target_status, PaymentStatus::Completed);
    assert_eq!(outcome.payment, PaymentDisposition::Moved);
    assert_eq!(outcome.subscription, SubscriptionDisposition::Activated);
    assert!(!outcome.store_payment_method);

    let payment = w.payments.get_payment_by_merchant_id(&w.txn).unwrap();
    assert_eq!(payment.status, PaymentStatus::Completed);
    assert_eq!(payment.completed_at, Some(now));
    let subscription = w.subscriptions.get_subscription(w.subscription_id).unwrap();
    assert_eq!(subscription.status, SubscriptionStatus::Active);
    assert_eq!(subscription.start_date, Some(now));
    assert_eq!(
        subscription.end_date.unwrap().millis,
        subscription.start_date.unwrap().millis + 30 * DAY
    );
    assert_eq!(subscription.payment_method, Some(PaymentMethod::Card));
    assert_eq!(subscription.payment_brand, Some("VISA".to_string()));
    assert_eq!(subscription.user_id, w.user_id);
}

#[test]
fn redelivered_webhook_changes_nothing() {
    let start = 1_700_000_000_000;
    let mut w = world(start);
    let body = signed_body(
        &[
            ("result.code", "000.000.000"),
            ("merchantTransactionId", &w.txn),
            ("registrationId", "reg_456"),
        ],
        SECRET,
    );
    let first = handle_webhook(
        &mut w.payments,
        &mut w.subscriptions,
        &body,
        SECRET,
        Timestamp::from_millis(start + 1),
        7,
    );
    let after_first = w.subscriptions.get_subscription(w.subscription_id).unwrap().clone();
    let second = handle_webhook(
        &mut w.payments,
        &mut w.subscriptions,
        &body,
        SECRET,
        Timestamp::from_millis(start + 5 * DAY),
        7,
    );
    assert_eq!(first.status, 200);
    assert_eq!(second.status, 200);
    let first = first.outcome.unwrap();
    let second = second.outcome.unwrap();
    assert!(first.store_payment_method);
    assert!(!second.store_payment_method);
    assert_eq!(first.payment, PaymentDisposition::Moved);
    assert_eq!(second.payment, PaymentDisposition::Unchanged);
    assert_eq!(second.subscription, SubscriptionDisposition::NotConcerned);
    let subscription = w.subscriptions.get_subscription(w.subscription_id).unwrap();
    assert_eq!(subscription.end_date, after_first.end_date);
    assert_eq!(subscription.updated_at, after_first.updated_at);
    let payment = w.payments.get_payment_by_merchant_id(&w.txn).unwrap();
    assert_eq!(payment.status, PaymentStatus::Completed);
    assert_eq!(payment.payment_type, PaymentType::Recurring);
    assert_eq!(payment.recurring_token, Some("reg_456".to_string()));
    assert_eq!(payment.completed_at, Some(Timestamp::from_millis(start + 1)));
}

#[test]
fn payment_method_is_stored_once_even_if_the_first_delivery_had_no_token() {
    let mut w = world(0);
    let plain = WebhookEvent {
        result_code: "000.000.000".to_string(),
        merchant_transaction_id: w.txn.clone(),
        subscription_id: None,
        registration_id: None,
        payment_id: None,
        payment_brand: None,
    };
    let with_token = WebhookEvent {
        result_code: "000.000.000".to_string(),
        merchant_transaction_id: w.txn.clone(),
        subscription_id: None,
        registration_id: Some("reg_1".to_string()),
        payment_id: None,
        payment_brand: None,
    };
    let t = Timestamp::from_millis(10);
    let a = ingest_event(&mut w.payments, &mut w.subscriptions, &plain, t, 7);
    let b = ingest_event(&mut w.payments, &mut w.subscriptions, &with_token, t, 7);
    let c = ingest_event(&mut w.payments, &mut w.subscriptions, &with_token, t, 7);
    assert!(!a.store_payment_method);
    assert!(b.store_payment_method);
    assert!(!c.store_payment_method);
    assert_eq!(b.subscription, SubscriptionDisposition::NotConcerned);
}

#[test]
fn completed_webhook_renews_a_running_subscription() {
    let mut w = world(0);
    w.subscriptions.activate(w.subscription_id, Timestamp::from_millis(0), 7).unwrap();
    let event = WebhookEvent {
        result_code: "000.100.110".to_string(),
        merchant_transaction_id: w.txn.clone(),
        subscription_id: None,
        registration_id: None,
        payment_id: None,
        payment_brand: Some("ozow".to_string()),
    };
    let now = Timestamp::from_millis(35 * DAY);
    let outcome = ingest_event(&mut w.payments, &mut w.subscriptions, &event, now, 7);
    assert_eq!(outcome.subscription, SubscriptionDisposition::Renewed);
    let s = w.subscriptions.get_subscription(w.subscription_id).unwrap();
    assert_eq!(s.end_date, Some(Timestamp::from_millis(60 * DAY)));
    assert_eq!(s.payment_method, Some(PaymentMethod::Eft));
}

#[test]
fn user_cancellation_fails_the_payment_and_leaves_the_subscription() {
    let mut w = world(0);
    let body = signed_body(
        &[("result.code", "100.396.104"), ("merchantTransactionId", &w.txn)],
        SECRET,
    );
    let response = handle_webhook(
        &mut w.payments,
        &mut w.subscriptions,
        &body,
        SECRET,
        Timestamp::from_millis(9),
        7,
    );
    let outcome = response.outcome.unwrap();
    assert_eq!(outcome.target_status, PaymentStatus::Failed);
    assert_eq!(outcome.payment, PaymentDisposition::Moved);
    assert_eq!(outcome.subscription, SubscriptionDisposition::NotConcerned);
    assert_eq!(
        w.payments.get_payment_by_merchant_id(&w.txn).unwrap().status,
        PaymentStatus::Failed
    );
    assert_eq!(
        w.subscriptions.get_subscription(w.subscription_id).unwrap().status,
        SubscriptionStatus::Pending
    );
    // a later report of success does not revive it
    let body = signed_body(
        &[("result.code", "000.000.000"), ("merchantTransactionId", &w.txn)],
        SECRET,
    );
    let response = handle_webhook(
        &mut w.payments,
        &mut w.subscriptions,
        &body,
        SECRET,
        Timestamp::from_millis(10),
        7,
    );
    assert_eq!(response.status, 200);
    assert_eq!(response.outcome.unwrap().payment, PaymentDisposition::Rejected);
    assert_eq!(
        w.payments.get_payment_by_merchant_id(&w.txn).unwrap().status,
        PaymentStatus::Failed
    );
    assert_eq!(
        w.subscriptions.get_subscription(w.subscription_id).unwrap().status,
        SubscriptionStatus::Pending
    );
}

#[test]
fn pending_code_changes_nothing() {
    let mut w = world(0);
    let event = WebhookEvent {
        result_code: "000.200.100".to_string(),
        merchant_transaction_id: w.txn.clone(),
        subscription_id: None,
        registration_id: Some("reg".to_string()),
        payment_id: None,
        payment_brand: None,
    };
    let outcome =
        ingest_event(&mut w.payments, &mut w.subscriptions, &event, Timestamp::from_millis(5), 7);
    assert_eq!(outcome.payment, PaymentDisposition::Unchanged);
    assert!(!outcome.store_payment_method);
    let p = w.payments.get_payment_by_merchant_id(&w.txn).unwrap();
    assert_eq!(p.status, PaymentStatus::Pending);
    assert_eq!(p.updated_at, Timestamp::from_millis(0));
}

#[test]
fn webhook_for_an_unknown_payment_creates_nothing() {
    let mut w = world(0);
    let body = signed_body(
        &[("result.code", "000.000.000"), ("merchantTransactionId", "TXN_unknown")],
        SECRET,
    );
    let response = payment_callback(&mut w.payments, &mut w.subscriptions, &body, SECRET, 7);
    assert_eq!(response.status, 200);
    assert_eq!(response.outcome.unwrap().payment, PaymentDisposition::NotFound);
    assert_eq!(w.payments.len(), 1);
    assert_eq!(
        w.subscriptions.get_subscription(w.subscription_id).unwrap().status,
        SubscriptionStatus::Pending
    );
}

#[test]
fn wrong_signature_is_answered_401_and_changes_nothing() {
    let mut w = world(0);
    let body = signed_body(
        &[("result.code", "000.000.000"), ("merchantTransactionId", &w.txn)],
        "not the secret",
    );
    let response = handle_webhook(
        &mut w.payments,
        &mut w.subscriptions,
        &body,
        SECRET,
        Timestamp::from_millis(9),
        7,
    );
    assert_eq!(response.status, 401);
    assert_eq!(response.error, Some(BillingError::SignatureMismatch));
    assert_eq!(response.body(), "Invalid signature");
    assert_eq!(response.outcome, None);
    assert_eq!(
        w.payments.get_payment_by_merchant_id(&w.txn).unwrap().status,
        PaymentStatus::Pending
    );
}

#[test]
fn unreadable_or_unsigned_body_is_answered_400() {
    let mut w = world(0);
    let t = Timestamp::from_millis(9);
    let r = handle_webhook(&mut w.payments, &mut w.subscriptions, &[0xff], SECRET, t, 7);
    assert_eq!(r.status, 400);
    assert_eq!(r.error, Some(BillingError::MalformedBody));
    assert_eq!(r.body(), "Invalid form data");
    let r = handle_webhook(&mut w.payments, &mut w.subscriptions, b"a=b", SECRET, t, 7);
    assert_eq!(r.status, 400);
    assert_eq!(r.error, Some(BillingError::MissingSignature));
    assert_eq!(r.body(), "Missing signature");
}

#[test]
fn signed_webhook_without_required_fields_is_still_answered_200() {
    let mut w = world(0);
    let body = signed_body(&[("merchantTransactionId", &w.txn)], SECRET);
    let r = handle_webhook(
        &mut w.payments,
        &mut w.subscriptions,
        &body,
        SECRET,
        Timestamp::from_millis(9),
        7,
    );
    assert_eq!(r.status, 200);
    assert_eq!(r.error, Some(BillingError::MissingField));
    assert_eq!(r.outcome, None);
    assert_eq!(r.body(), "Webhook received");
}

#[test]
fn payment_linked_to_a_missing_subscription() {
    let mut w = world(0);
    let mut payments = PaymentLedger::new();
    payments
        .create_payment_at(
            InitiatePaymentRequest {
                user_id: w.user_id,
                subscription_id: RecordId::from_u128(999),
                amount: Amount::new(1, 0),
                currency: None,
                payment_method: PaymentMethod::Card,
                enable_recurring: None,
                return_url: None,
                webhook_url: None,
            },
            "TXN_x".to_string(),
            RecordId::from_u128(1),
            Timestamp::from_millis(0),
        )
        .unwrap();
    let event = WebhookEvent {
        result_code: "000.000.000".to_string(),
        merchant_transaction_id: "TXN_x".to_string(),
        subscription_id: None,
        registration_id: None,
        payment_id: None,
        payment_brand: None,
    };
    let outcome =
        ingest_event(&mut payments, &mut w.subscriptions, &event, Timestamp::from_millis(1), 7);
    assert_eq!(outcome.payment, PaymentDisposition::Moved);
    assert_eq!(outcome.subscription, SubscriptionDisposition::NotFound);
}

#[test]
fn raw_body_scheme_signs_the_bytes_as_sent() {
    let mut w = world(0);
    let body = format!("result.code=000.000.000&merchantTransactionId={}", w.txn).into_bytes();
    let signature = hmac_hex(SECRET.as_bytes(), &body);
    assert!(verify_webhook_raw(&body, Some(&signature), SECRET).is_ok());
    assert_eq!(
        verify_webhook_raw(&body, None, SECRET).unwrap_err(),
        BillingError::MissingSignature
    );
    assert_eq!(
        verify_webhook_raw(&body, Some(""), SECRET).unwrap_err(),
        BillingError::MissingSignature
    );
    assert_eq!(
        verify_webhook_raw(&body, Some("00"), SECRET).unwrap_err(),
        BillingError::SignatureMismatch
    );
    let junk = [0xffu8, 0x00];
    let junk_signature = hmac_hex(SECRET.as_bytes(), &junk);
    assert_eq!(
        verify_webhook_raw(&junk, Some(&junk_signature), SECRET).unwrap_err(),
        BillingError::MalformedBody
    );
    // the same body does not verify under the other scheme
    let t = Timestamp::from_millis(5);
    let r = handle_webhook_under(
        SignatureScheme::SortedFields,
        &mut w.payments,
        &mut w.subscriptions,
        &body,
        Some(&signature),
        SECRET,
        t,
        7,
    );
    assert_eq!(r.status, 400);
    let r = handle_webhook_under(
        SignatureScheme::RawBody,
        &mut w.payments,
        &mut w.subscriptions,
        &body,
        Some(&signature),
        SECRET,
        t,
        7,
    );
    assert_eq!(r.status, 200);
    assert_eq!(r.outcome.unwrap().subscription, SubscriptionDisposition::Activated);
    let r = answer_webhook(
        &mut w.payments,
        &mut w.subscriptions,
        Err(BillingError::SignatureMismatch),
        t,
        7,
    );
    assert_eq!(r.status, 401);
}

#[test]
fn document_notification_becomes_an_event() {
    let payload = PaymentWebhookPayload {
        id: "8ac7a4a1".to_string(),
        merchant_transaction_id: "TXN_7".to_string(),
        result: WebhookResult {
            code: "000.100.110".to_string(),
            description: "Request successfully processed".to_string(),
        },
        amount: "100.00".to_string(),
        currency: "ZAR".to_string(),
        payment_type: "DB".to_string(),
        registration_id: Some("reg_9".to_string()),
        timestamp: "2024-01-01T00:00:00Z".to_string(),
        ndc: None,
        checkout_id: None,
    };
    let event = payload.to_event();
    assert_eq!(event.result_code, "000.100.110");
    assert_eq!(event.merchant_transaction_id, "TXN_7");
    assert_eq!(event.registration_id, Some("reg_9".to_string()));
    assert_eq!(event.payment_id, Some("8ac7a4a1".to_string()));
    assert_eq!(event.subscription_id, None);
    assert_eq!(event.payment_brand, None);
    assert_eq!(event.target_status(), PaymentStatus::Completed);
}
