use subscription_billing::checkout::{
    begin_payment_at, callback_error_location, callback_redirect_location, callback_succeeded,
    checkout_id_from_resource_path, checkout_to_poll, complete_checkout, initiate_payment,
    reconcile_poll, PaymentCallbackQuery, StatusAnswer,
};
use subscription_billing::common::{PaymentMethod, SubscriptionPlan};
use subscription_billing::config::{AppConfig, ConfigError, PeachConfig, SignatureScheme};
use subscription_billing::error::BillingError;
use subscription_billing::gateway::{
    cached_token, payment_method_of, AccessToken, CardDetails, CheckoutAnswer, CustomParameters,
    PaymentDetails, PeachPaymentService,
};
use subscription_billing::ids::RecordId;
use subscription_billing::money::Amount;
use subscription_billing::payment::{InitiatePaymentRequest, PaymentStatus};
use subscription_billing::payment_ledger::PaymentLedger;
use subscription_billing::subscription::{CreateSubscriptionRequest, SubscriptionStatus};
use subscription_billing::subscription_ledger::SubscriptionLedger;
use subscription_billing::time::Timestamp;
use subscription_billing::webhook::{PaymentDisposition, SubscriptionDisposition};

fn config() -> PeachConfig {
    PeachConfig {
        auth_service_url: "https://test-auth.peach.com".to_string(),
        checkout_endpoint: "https://test-checkout.peach.com".to_string(),
        status_endpoint: "https://test-status.peach.com".to_string(),
        client_id: "test_client".to_string(),
        client_secret: "test_secret".to_string(),
        merchant_id: "test_merchant".to_string(),
        entity_id: "test_entity".to_string(),
        webhook_secret: "test_webhook_secret".to_string(),
        notification_url: "https://example.com/webhook".to_string(),
        shopper_result_url: "https://example.com/result".to_string(),
        origin_domain: "https://example.com".to_string(),
    }
}

fn details() -> PaymentDetails {
    PaymentDetails {
        id: None,
        status: None,
        payment_type: None,
        registration_id: None,
        card: None,
        custom_parameters: None,
    }
}

fn request(subscription_id: RecordId, method: PaymentMethod) -> InitiatePaymentRequest {
    InitiatePaymentRequest {
        user_id: RecordId::from_u128(1),
        subscription_id,
        amount: Amount::new(10_000, 2),
        currency: None,
        payment_method: method,
        enable_recurring: Some(true),
        return_url: None,
        webhook_url: None,
    }
}

#[test]
fn test_registration_token_extraction() {
    let config = config();
    let service = PeachPaymentService::new(config);

    let payment_response = PaymentDetails {
        id: Some("payment_123".to_string()),
        registration_id: Some("reg_456".to_string()),
        status: Some("completed".to_string()),
        ..details()
    };

    let token = service.extract_registration_token(&payment_response);
    assert_eq!(token, Some("reg_456".to_string()));

    let response_without_token = PaymentDetails {
        id: Some("payment_123".to_string()),
        status: Some("completed".to_string()),
        ..details()
    };

    let no_token = service.extract_registration_token(&response_without_token);
    assert_eq!(no_token, None);
}

#[test]
fn method_of_a_gateway_payment() {
    let card = CardDetails {
        last_four_digits: Some("4242".to_string()),
        brand: Some("VISA".to_string()),
        expiry_month: Some(12),
        expiry_year: Some(2030),
    };
    let custom = |brand: &str| CustomParameters {
        payment_brand: Some(brand.to_string()),
        bank_name: Some("FNB".to_string()),
    };
    let db = || PaymentDetails { payment_type: Some("DB".to_string()), ..details() };
    assert_eq!(payment_method_of(&details()), PaymentMethod::Card);
    assert_eq!(payment_method_of(&db()), PaymentMethod::Card);
    assert_eq!(
        payment_method_of(&PaymentDetails { custom_parameters: Some(custom("EFT")), ..db() }),
        PaymentMethod::Eft
    );
    assert_eq!(
        payment_method_of(&PaymentDetails {
            custom_parameters: Some(custom("SCAN_TO_PAY")),
            ..db()
        }),
        PaymentMethod::ScanToPay
    );
    assert_eq!(
        payment_method_of(&PaymentDetails { custom_parameters: Some(custom("eft")), ..db() }),
        PaymentMethod::Card
    );
    assert_eq!(
        payment_method_of(&PaymentDetails {
            card: Some(card),
            custom_parameters: Some(custom("EFT")),
            ..db()
        }),
        PaymentMethod::Card
    );
    assert_eq!(
        payment_method_of(&PaymentDetails {
            payment_type: Some("RG".to_string()),
            custom_parameters: Some(custom("EFT")),
            ..details()
        }),
        PaymentMethod::Card
    );
}

#[test]
fn payment_method_detail_of_a_card() {
    let service = PeachPaymentService::new(config());
    let response = PaymentDetails {
        payment_type: Some("DB".to_string()),
        registration_id: Some("reg_1".to_string()),
        card: Some(CardDetails {
            last_four_digits: Some("4242".to_string()),
            brand: Some("VISA".to_string()),
            expiry_month: Some(12),
            expiry_year: Some(2030),
        }),
        ..details()
    };
    let now = Timestamp::from_millis(50);
    let d = service.extract_payment_method_detail(
        &response,
        RecordId::from_u128(1),
        RecordId::from_u128(2),
        now,
    );
    assert_eq!(d.id, RecordId::from_u128(2));
    assert_eq!(d.user_id, RecordId::from_u128(1));
    assert_eq!(d.payment_method, PaymentMethod::Card);
    assert_eq!(d.peach_registration_id, Some("reg_1".to_string()));
    assert_eq!(d.card_last_four, Some("4242".to_string()));
    assert_eq!(d.card_brand, Some("VISA".to_string()));
    assert_eq!(d.expiry_month, Some(12));
    assert_eq!(d.expiry_year, Some(2030));
    assert_eq!(d.bank_name, None);
    assert!(!d.is_default);
    assert!(d.is_active);
    assert_eq!(d.created_at, now);
    assert_eq!(d.updated_at, now);
}

#[test]
fn payment_method_detail_of_an_eft() {
    let service = PeachPaymentService::new(config());
    let response = PaymentDetails {
        payment_type: Some("DB".to_string()),
        custom_parameters: Some(CustomParameters {
            payment_brand: Some("EFT".to_string()),
            bank_name: Some("FNB".to_string()),
        }),
        ..details()
    };
    let d = service.extract_payment_method_detail(
        &response,
        RecordId::from_u128(1),
        RecordId::from_u128(2),
        Timestamp::from_millis(0),
    );
    assert_eq!(d.payment_method, PaymentMethod::Eft);
    assert_eq!(d.bank_name, Some("FNB".to_string()));
    assert_eq!(d.card_last_four, None);
    assert_eq!(d.expiry_month, None);
    assert_eq!(d.peach_registration_id, None);
}

#[test]
fn expiry_keeps_the_low_bits() {
    let service = PeachPaymentService::new(config());
    let response = PaymentDetails {
        card: Some(CardDetails {
            last_four_digits: None,
            brand: None,
            expiry_month: Some(256 + 7),
            expiry_year: Some(65536 + 2031),
        }),
        ..details()
    };
    let d = service.extract_payment_method_detail(
        &response,
        RecordId::from_u128(1),
        RecordId::from_u128(2),
        Timestamp::from_millis(0),
    );
    assert_eq!(d.expiry_month, Some(7));
    assert_eq!(d.expiry_year, Some(2031));
}

#[test]
fn config_validation_names_the_first_empty_setting() {
    assert_eq!(config().validate(), Ok(()));
    assert!(PeachPaymentService::new(config()).validate_config().is_ok());
    let cases: Vec<(PeachConfig, ConfigError, &str)> = vec![
        (
            PeachConfig { client_id: String::new(), client_secret: String::new(), ..config() },
            ConfigError::EmptyClientId,
            "Client ID is empty",
        ),
        (
            PeachConfig { client_secret: String::new(), ..config() },
            ConfigError::EmptyClientSecret,
            "Client Secret is empty",
        ),
        (
            PeachConfig { merchant_id: String::new(), ..config() },
            ConfigError::EmptyMerchantId,
            "Merchant ID is empty",
        ),
        (
            PeachConfig { auth_service_url: String::new(), ..config() },
            ConfigError::EmptyAuthUrl,
            "V2 Auth URL is empty",
        ),
        (
            PeachConfig { checkout_endpoint: String::new(), ..config() },
            ConfigError::EmptyCheckoutUrl,
            "V2 Checkout URL is empty",
        ),
        (
            PeachConfig { entity_id: String::new(), ..config() },
            ConfigError::EmptyEntityId,
            "V2 Entity ID is empty",
        ),
        (
            PeachConfig { notification_url: String::new(), ..config() },
            ConfigError::EmptyNotificationUrl,
            "Notification URL is empty",
        ),
        (
            PeachConfig { shopper_result_url: String::new(), ..config() },
            ConfigError::EmptyShopperResultUrl,
            "Shopper Result URL is empty",
        ),
    ];
    for (c, expected, message) in cases {
        assert_eq!(c.validate(), Err(expected));
        assert_eq!(expected.message(), message);
    }
    // settings that no request needs may be empty
    assert!(PeachConfig { origin_domain: String::new(), ..config() }.validate().is_ok());
}

#[test]
fn app_config_defaults() {
    let c = AppConfig::default();
    assert_eq!(c.grace_period_days, 7);
    assert_eq!(c.max_renewal_attempts, 5);
    assert_eq!(c.notification_days, vec![7, 3, 1]);
    assert!(c.renew_in_grace);
    assert_eq!(c.signature_scheme, SignatureScheme::SortedFields);
}

#[test]
fn cached_token_is_used_until_five_minutes_before_expiry() {
    let token = AccessToken {
        token: "abc".to_string(),
        expires_at: Timestamp::from_millis(1_000_000),
    };
    assert!(token.is_fresh(Timestamp::from_millis(1_000_000 - 300_001)));
    assert!(!token.is_fresh(Timestamp::from_millis(1_000_000 - 300_000)));
    assert!(!token.is_fresh(Timestamp::from_millis(2_000_000)));
    let cache = Some(token);
    assert_eq!(cached_token(&cache, Timestamp::from_millis(0)), Some("abc".to_string()));
    assert_eq!(cached_token(&cache, Timestamp::from_millis(900_000)), None);
    assert_eq!(cached_token(&None, Timestamp::from_millis(0)), None);
    let far = AccessToken { token: "x".to_string(), expires_at: Timestamp::from_millis(i64::MAX) };
    assert!(!far.is_fresh(Timestamp::from_millis(i64::MAX)));
}

#[test]
fn token_from_an_answer() {
    let now = Timestamp::from_millis(10_000);
    let t = AccessToken::from_response(Some("tok".to_string()), Some(60), now).unwrap();
    assert_eq!(t.token, "tok");
    assert_eq!(t.expires_at, Timestamp::from_millis(70_000));
    let t = AccessToken::from_response(Some("tok".to_string()), None, now).unwrap();
    assert_eq!(t.expires_at, Timestamp::from_millis(10_000 + 3_600_000));
    assert_eq!(
        AccessToken::from_response(None, Some(60), now).unwrap_err(),
        BillingError::GatewayFailure
    );
    assert_eq!(
        AccessToken::from_response(Some("tok".to_string()), Some(u64::MAX), now).unwrap_err(),
        BillingError::DateOutOfRange
    );
}

#[test]
fn checkout_request_per_method() {
    let service = PeachPaymentService::new(config());
    let sub = RecordId::from_u128(9);
    let r = service.checkout_request(
        &request(sub, PaymentMethod::Card),
        "nonce-1".to_string(),
        "TXN_1".to_string(),
    );
    assert_eq!(r.entity_id, "test_entity");
    assert_eq!(r.amount, Amount::new(10_000, 2));
    assert_eq!(r.currency, "ZAR");
    assert_eq!(r.payment_type, "DB");
    assert_eq!(r.merchant_transaction_id, "TXN_1");
    assert_eq!(r.nonce, "nonce-1");
    assert_eq!(r.notification_url, "https://example.com/webhook");
    assert_eq!(r.shopper_result_url, "https://example.com/result");
    assert!(r.create_registration);
    assert_eq!(r.payment_brand, None);

    let mut no_recurring = request(sub, PaymentMethod::Card);
    no_recurring.enable_recurring = None;
    no_recurring.currency = Some("USD".to_string());
    let r = service.checkout_request(&no_recurring, "n".to_string(), "T".to_string());
    assert!(!r.create_registration);
    assert_eq!(r.currency, "USD");

    for (method, brand) in [
        (PaymentMethod::Eft, "EFT"),
        (PaymentMethod::OneVoucher, "1VOUCHER"),
        (PaymentMethod::ScanToPay, "SCAN_TO_PAY"),
    ] {
        let r = service.checkout_request(&request(sub, method), "n".to_string(), "T".to_string());
        assert_eq!(r.payment_brand, Some(brand.to_string()));
        assert!(!r.create_registration);
    }
}

#[test]
fn recurring_payment_request_fields() {
    let service = PeachPaymentService::new(config());
    let r = service.recurring_payment_request(
        "reg_1",
        Amount::new(10_000, 2),
        "RENEWAL_1",
        "user-1",
        "nonce".to_string(),
    );
    assert_eq!(r.entity_id, "test_entity");
    assert_eq!(r.currency, "ZAR");
    assert_eq!(r.payment_type, "DB");
    assert_eq!(r.registration_id, "reg_1");
    assert_eq!(r.merchant_transaction_id, "RENEWAL_1");
    assert_eq!(r.merchant_customer_id, "user-1");
    assert_eq!(r.nonce, "nonce");
    assert_eq!(r.notification_url, "https://example.com/webhook");
    assert_eq!(r.amount, Amount::new(10_000, 2));
}

#[test]
fn gateway_addresses() {
    let s = PeachPaymentService::new(config());
    assert_eq!(s.auth_url(), "https://test-auth.peach.com/api/oauth/token");
    assert_eq!(s.checkout_url(), "https://test-checkout.peach.com/v2/checkout");
    assert_eq!(s.checkout_page_url("c1"), "https://test-checkout.peach.com/v2/checkout/c1");
    assert_eq!(
        s.checkout_status_url("c1"),
        "https://test-status.peach.com/v2/checkout/c1/status"
    );
    assert_eq!(s.payments_url(), "https://test-checkout.peach.com/v2/payments");
    assert_eq!(s.payment_details_url("pay_1"), "https://test-checkout.peach.com/v1/payments/pay_1");
    assert_eq!(s.config().entity_id, "test_entity");
}

fn pending_world() -> (SubscriptionLedger, PaymentLedger, RecordId) {
    let mut subscriptions = SubscriptionLedger::new();
    let sub = subscriptions
        .create_subscription(CreateSubscriptionRequest {
            user_id: RecordId::from_u128(1),
            plan: SubscriptionPlan::Monthly,
            auto_renew: None,
            billing_cycle_anchor: None,
        })
        .unwrap();
    (subscriptions, PaymentLedger::new(), sub.id)
}

#[test]
fn payment_is_started_only_for_a_pending_subscription() {
    let (mut subscriptions, mut payments, sub) = pending_world();
    let err = initiate_payment(
        &subscriptions,
        &mut payments,
        request(RecordId::from_u128(404), PaymentMethod::Card),
    )
    .unwrap_err();
    assert_eq!(err, BillingError::SubscriptionNotFound);
    let payment =
        initiate_payment(&subscriptions, &mut payments, request(sub, PaymentMethod::Card)).unwrap();
    assert_eq!(payment.status, PaymentStatus::Pending);
    assert!(payment.merchant_transaction_id.starts_with("TXN_"));
    assert_eq!(payment.merchant_transaction_id.len(), 36);
    assert_eq!(payments.len(), 1);
    subscriptions.activate(sub, Timestamp::from_millis(0), 7).unwrap();
    let err = initiate_payment(&subscriptions, &mut payments, request(sub, PaymentMethod::Card))
        .unwrap_err();
    assert_eq!(err, BillingError::NotPending);
    assert_eq!(payments.len(), 1);
}

#[test]
fn checkout_answer_is_attached_and_reported() {
    let (subscriptions, mut payments, sub) = pending_world();
    let service = PeachPaymentService::new(config());
    let payment = begin_payment_at(
        &subscriptions,
        &mut payments,
        request(sub, PaymentMethod::Card),
        "TXN_1".to_string(),
        RecordId::from_u128(5),
        Timestamp::from_millis(0),
    )
    .unwrap();
    assert_eq!(checkout_to_poll(&payments, "TXN_1"), Ok(None));
    let missing = CheckoutAnswer { id: None, checkout_id: None, redirect_url: None };
    let err = complete_checkout(
        &service,
        &mut payments,
        payment.id,
        "TXN_1",
        &missing,
        Timestamp::from_millis(1),
    )
    .unwrap_err();
    assert_eq!(err, BillingError::GatewayFailure);
    assert_eq!(payments.get_payment_by_merchant_id("TXN_1").unwrap().peach_checkout_id, None);

    let answer = CheckoutAnswer {
        id: None,
        checkout_id: Some("chk_1".to_string()),
        redirect_url: Some("https://pay.example/redirect".to_string()),
    };
    let now = Timestamp::from_millis(2);
    let response =
        complete_checkout(&service, &mut payments, payment.id, "TXN_1", &answer, now).unwrap();
    assert_eq!(response.payment_id, payment.id);
    assert_eq!(response.merchant_transaction_id, "TXN_1");
    assert_eq!(response.checkout_id, "chk_1");
    assert_eq!(
        response.checkout_url,
        Some("https://test-checkout.peach.com/v2/checkout/chk_1".to_string())
    );
    let embed = response.embed_config.unwrap();
    assert_eq!(embed.entity_id, "test_entity");
    assert_eq!(embed.checkout_id, "chk_1");
    assert_eq!(embed.script_url, "https://sandbox-checkout.peachpayments.com/js/checkout.js");
    assert_eq!(response.redirect_url, Some("https://pay.example/redirect".to_string()));
    let stored = payments.get_payment_by_merchant_id("TXN_1").unwrap();
    assert_eq!(stored.peach_checkout_id, Some("chk_1".to_string()));
    assert_eq!(stored.updated_at, now);
    assert_eq!(checkout_to_poll(&payments, "TXN_1"), Ok(Some("chk_1".to_string())));
    assert_eq!(checkout_to_poll(&payments, "TXN_2"), Err(BillingError::PaymentNotFound));

    let both = CheckoutAnswer {
        id: Some("from_id".to_string()),
        checkout_id: Some("from_checkout_id".to_string()),
        redirect_url: None,
    };
    assert_eq!(both.checkout_id(), Some(&"from_id".to_string()));
}

#[test]
fn polling_and_webhook_arrive_at_the_same_state() {
    let (mut subscriptions, mut payments, sub) = pending_world();
    begin_payment_at(
        &subscriptions,
        &mut payments,
        request(sub, PaymentMethod::Card),
        "TXN_1".to_string(),
        RecordId::from_u128(5),
        Timestamp::from_millis(0),
    )
    .unwrap();
    let answer = || StatusAnswer {
        result_code: "000.000.000".to_string(),
        payment_brand: Some("MASTERCARD".to_string()),
        registration_id: None,
        payment_id: None,
    };
    let first = reconcile_poll(
        &mut payments,
        &mut subscriptions,
        "TXN_1",
        answer(),
        Timestamp::from_millis(100),
        7,
    );
    assert_eq!(first.payment, PaymentDisposition::Moved);
    assert_eq!(first.subscription, SubscriptionDisposition::Activated);
    let end = subscriptions.get_subscription(sub).unwrap().end_date;
    let second = reconcile_poll(
        &mut payments,
        &mut subscriptions,
        "TXN_1",
        answer(),
        Timestamp::from_millis(9_999_999),
        7,
    );
    assert_eq!(second.payment, PaymentDisposition::Unchanged);
    assert_eq!(second.subscription, SubscriptionDisposition::NotConcerned);
    let s = subscriptions.get_subscription(sub).unwrap();
    assert_eq!(s.status, SubscriptionStatus::Active);
    assert_eq!(s.end_date, end);
    assert_eq!(s.payment_method, Some(PaymentMethod::Card));
}

#[test]
fn checkout_id_is_read_from_the_resource_path() {
    assert_eq!(
        checkout_id_from_resource_path("/checkouts/8ac7a4a1/payment"),
        Some("8ac7a4a1".to_string())
    );
    assert_eq!(checkout_id_from_resource_path("checkouts/abc"), Some("abc".to_string()));
    assert_eq!(checkout_id_from_resource_path("///checkouts/abc/"), Some("abc".to_string()));
    assert_eq!(checkout_id_from_resource_path("/checkouts/"), Some(String::new()));
    assert_eq!(checkout_id_from_resource_path("/checkouts//x"), Some(String::new()));
    assert_eq!(checkout_id_from_resource_path("/checkouts"), None);
    assert_eq!(checkout_id_from_resource_path("/checkout/abc"), None);
    assert_eq!(checkout_id_from_resource_path("/v1/checkouts/abc"), None);
    assert_eq!(checkout_id_from_resource_path(""), None);
    assert_eq!(checkout_id_from_resource_path("/"), None);
    assert_eq!(checkout_id_from_resource_path("/checkouts/\u{e9}t\u{e9}/x"), Some("\u{e9}t\u{e9}".to_string()));
    let query = PaymentCallbackQuery { resource_path: Some("/checkouts/q1".to_string()) };
    assert_eq!(query.checkout_id(), Some("q1".to_string()));
    assert_eq!(PaymentCallbackQuery { resource_path: None }.checkout_id(), None);
}

#[test]
fn callback_redirects() {
    assert_eq!(
        callback_redirect_location(Some("TXN_1"), "/checkouts/c1/payment"),
        "/payment-result.html?id=TXN_1&resourcePath=/checkouts/c1/payment"
    );
    assert_eq!(
        callback_redirect_location(None, "/checkouts/c1"),
        "/payment-result.html?id=unknown&resourcePath=/checkouts/c1"
    );
    assert_eq!(callback_error_location(), "/payment-result.html?status=error");
    assert!(callback_succeeded(Some("000.200.000")));
    assert!(!callback_succeeded(Some("100.396.104")));
    assert!(!callback_succeeded(None));
}

#[test]
fn registration_and_refund_requests() {
    let s = PeachPaymentService::new(config());
    let r = s.registration_request("user-1", PaymentMethod::Card, 0xab, "nonce".to_string());
    assert_eq!(r.entity_id, "test_entity");
    assert_eq!(r.amount, Amount { mantissa: 0, scale: 2 });
    assert_eq!(r.currency, "ZAR");
    assert_eq!(r.payment_type, "RG");
    assert_eq!(r.merchant_transaction_id, "REG_000000000000000000000000000000ab");
    assert_eq!(r.nonce, "nonce");
    assert_eq!(r.merchant_customer_id, "user-1");
    assert_eq!(r.payment_method, "CARD");
    assert_eq!(r.notification_url, "https://example.com/webhook");
    assert_eq!(r.shopper_result_url, "https://example.com/result");
    let f = s.refund_request(Amount::new(5_000, 2));
    assert_eq!(f.entity_id, "test_entity");
    assert_eq!(f.amount, Amount::new(5_000, 2));
    assert_eq!(f.currency, "ZAR");
    assert_eq!(f.payment_type, "RF");
    assert_eq!(s.refund_url("pay_1"), "https://test-checkout.peach.com/v1/payments/pay_1/refund");
    let t = s.test_checkout_request(RecordId::from_u128(1), RecordId::from_u128(2), Amount::new(1, 0));
    assert_eq!(t.user_id, RecordId::from_u128(1));
    assert_eq!(t.subscription_id, RecordId::from_u128(2));
    assert_eq!(t.currency, Some("ZAR".to_string()));
    assert_eq!(t.payment_method, PaymentMethod::Card);
    assert_eq!(t.enable_recurring, Some(true));
}
