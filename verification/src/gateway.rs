//! The gateway client, as far as it computes.
//!
//! Talking to the gateway is the application's business. What the library
//! holds is everything around the call: which request to send for a
//! checkout, a recurring charge or a registration, when a cached access
//! token can still be used, and what an answer of the gateway means.

use vstd::prelude::*;
use vstd::string::*;
use vstd::utf8::encode_utf8;
use crate::common::{opt_view, PaymentMethod};
use crate::config::{spec_first_missing, ConfigError, PeachConfig};
use crate::error::BillingError;
use crate::ids::{registration_prefix, registration_transaction_id_from, simple_hex, RecordId};
use crate::money::Amount;
use crate::payment::InitiatePaymentRequest;
use crate::signature::{calculate_signature, signature_matches, signature_of, validate_signature};
use crate::text::str_equal;
use crate::time::Timestamp;

verus! {

/// Milliseconds before its expiry from which a cached token is no longer
/// used: five minutes.
pub const TOKEN_REFRESH_MARGIN_MILLIS: i64 = 300_000;

/// Seconds for which a token is taken to be valid when the gateway does
/// not say: one hour.
pub const DEFAULT_TOKEN_LIFETIME_SECONDS: u64 = 3600;

/// An access token of the gateway and the time it expires.
#[derive(Debug)]
pub struct AccessToken {
    pub token: String,
    pub expires_at: Timestamp,
}

/// Whether a token that expires at `expires_at` can still be used at
/// `now`: it has more than five minutes left.
pub open spec fn spec_token_fresh(expires_at: Timestamp, now: Timestamp) -> bool {
    expires_at.millis > now.millis + TOKEN_REFRESH_MARGIN_MILLIS
}

/// The token to use at `now` from a cache, if it holds a fresh one.
pub open spec fn spec_cached_token(cache: Option<AccessToken>, now: Timestamp) -> Option<Seq<char>> {
    match cache {
        Some(t) => if spec_token_fresh(t.expires_at, now) {
            Some(t.token@)
        } else {
            None
        },
        None => None,
    }
}

/// The seconds a token lives: what the gateway said, or an hour.
pub open spec fn spec_lifetime(expires_in: Option<u64>) -> int {
    match expires_in {
        Some(s) => s as int,
        None => DEFAULT_TOKEN_LIFETIME_SECONDS as int,
    }
}

impl AccessToken {
    /// Whether the token can still be used at `now`.
    pub fn is_fresh(&self, now: Timestamp) -> (b: bool)
        ensures
            b == spec_token_fresh(self.expires_at, now),
    {
        (self.expires_at.millis as i128) > (now.millis as i128) + (TOKEN_REFRESH_MARGIN_MILLIS as i128)
    }

    /// The token that an answer of the authentication service grants at
    /// `now`. An answer without a token is a failure of the gateway; a
    /// lifetime that leads beyond the range of time is refused.
    pub fn from_response(access_token: Option<String>, expires_in: Option<u64>, now: Timestamp) -> (r:
        Result<AccessToken, BillingError>)
        ensures
            access_token.is_none() ==> r.is_err() && r.unwrap_err() == BillingError::GatewayFailure,
            access_token.is_some() && now.millis + spec_lifetime(expires_in) * 1000 > i64::MAX
                ==> r.is_err() && r.unwrap_err() == BillingError::DateOutOfRange,
            access_token.is_some() && now.millis + spec_lifetime(expires_in) * 1000 <= i64::MAX
                ==> r.is_ok() && r.unwrap().token@ == access_token.unwrap()@
                && r.unwrap().expires_at.millis == now.millis + spec_lifetime(expires_in) * 1000,
    {
        let token = match access_token {
            Some(token) => token,
            None => {
                return Err(BillingError::GatewayFailure);
            },
        };
        let seconds: u64 = match expires_in {
            Some(s) => s,
            None => DEFAULT_TOKEN_LIFETIME_SECONDS,
        };
        let wide: i128 = (now.millis as i128) + (seconds as i128) * 1000i128;
        if wide > (i64::MAX as i128) {
            return Err(BillingError::DateOutOfRange);
        }
        Ok(AccessToken { token, expires_at: Timestamp { millis: wide as i64 } })
    }
}

/// The token to use at `now` from a cache, if it holds a fresh one; else a
/// new one has to be asked for.
pub fn cached_token(cache: &Option<AccessToken>, now: Timestamp) -> (r: Option<String>)
    ensures
        opt_view(r) == spec_cached_token(*cache, now),
{
    match cache {
        Some(t) => {
            if t.is_fresh(now) {
                Some(t.token.clone())
            } else {
                None
            }
        },
        None => None,
    }
}

/// The request that creates a checkout.
#[derive(Debug)]
pub struct CheckoutRequest {
    pub entity_id: String,
    pub amount: Amount,
    pub currency: String,
    /// `DB`: a debit.
    pub payment_type: String,
    pub merchant_transaction_id: String,
    pub nonce: String,
    pub notification_url: String,
    pub shopper_result_url: String,
    /// Whether the gateway is to register the card for later charges.
    pub create_registration: bool,
    /// The brand to pay with, for a method other than a card.
    pub payment_brand: Option<String>,
}

/// The request that charges a stored token.
#[derive(Debug)]
pub struct RecurringPaymentRequest {
    pub entity_id: String,
    pub amount: Amount,
    pub currency: String,
    pub payment_type: String,
    pub merchant_transaction_id: String,
    pub nonce: String,
    pub registration_id: String,
    pub merchant_customer_id: String,
    pub notification_url: String,
}

/// The request that registers a payment method for later charges.
#[derive(Debug)]
pub struct RegistrationRequest {
    pub entity_id: String,
    /// Nothing is charged: zero.
    pub amount: Amount,
    pub currency: String,
    /// `RG`: a registration.
    pub payment_type: String,
    pub merchant_transaction_id: String,
    pub nonce: String,
    pub merchant_customer_id: String,
    /// The label of the method to register.
    pub payment_method: String,
    pub notification_url: String,
    pub shopper_result_url: String,
}

/// The request that refunds a payment.
#[derive(Debug)]
pub struct RefundRequest {
    pub entity_id: String,
    pub amount: Amount,
    pub currency: String,
    /// `RF`: a refund.
    pub payment_type: String,
}

/// The brand that a checkout names: none for a card, the label of the
/// method otherwise.
pub open spec fn spec_checkout_brand(method: PaymentMethod) -> Option<Seq<char>> {
    if method == PaymentMethod::Card {
        None
    } else {
        Some(method.spec_label())
    }
}

/// Whether a checkout asks for the card to be registered: only for a card,
/// and only where the payer agreed to recurring charges.
pub open spec fn spec_create_registration(request: InitiatePaymentRequest) -> bool {
    request.payment_method == PaymentMethod::Card && request.enable_recurring == Some(true)
}

/// What the gateway answered to the creation of a checkout.
#[derive(Debug)]
pub struct CheckoutAnswer {
    /// The field `id` of the answer.
    pub id: Option<String>,
    /// The field `checkoutId` of the answer.
    pub checkout_id: Option<String>,
    /// The field `redirect.url` of the answer.
    pub redirect_url: Option<String>,
}

impl CheckoutAnswer {
    /// The id of the checkout: the field `id`, or else `checkoutId`.
    pub open spec fn spec_checkout_id(self) -> Option<Seq<char>> {
        match self.id {
            Some(id) => Some(id@),
            None => opt_view(self.checkout_id),
        }
    }

    /// The id of the checkout: the field `id`, or else `checkoutId`.
    pub fn checkout_id(&self) -> (r: Option<&String>)
        ensures
            match r {
                Some(id) => self.spec_checkout_id() == Some(id@),
                None => self.spec_checkout_id().is_none(),
            },
    {
        match &self.id {
            Some(id) => Some(id),
            None => match &self.checkout_id {
                Some(id) => Some(id),
                None => None,
            },
        }
    }
}

/// The card of a payment, as the gateway reports it.
#[derive(Debug)]
pub struct CardDetails {
    pub last_four_digits: Option<String>,
    pub brand: Option<String>,
    pub expiry_month: Option<u64>,
    pub expiry_year: Option<u64>,
}

/// The custom parameters of a payment, as the gateway reports them.
#[derive(Debug)]
pub struct CustomParameters {
    pub payment_brand: Option<String>,
    pub bank_name: Option<String>,
}

/// A payment as the gateway reports it.
#[derive(Debug)]
pub struct PaymentDetails {
    pub id: Option<String>,
    pub status: Option<String>,
    pub payment_type: Option<String>,
    pub registration_id: Option<String>,
    pub card: Option<CardDetails>,
    pub custom_parameters: Option<CustomParameters>,
}

/// A payment method stored for a user.
#[derive(Debug)]
pub struct PaymentMethodDetail {
    pub id: RecordId,
    pub user_id: RecordId,
    pub payment_method: PaymentMethod,
    pub peach_registration_id: Option<String>,
    pub card_last_four: Option<String>,
    pub card_brand: Option<String>,
    pub expiry_month: Option<u8>,
    pub expiry_year: Option<u16>,
    pub bank_name: Option<String>,
    pub is_default: bool,
    pub is_active: bool,
    pub created_at: Timestamp,
    pub updated_at: Timestamp,
}

/// The brand among the custom parameters of a payment.
pub open spec fn spec_custom_brand(details: PaymentDetails) -> Option<Seq<char>> {
    match details.custom_parameters {
        Some(p) => opt_view(p.payment_brand),
        None => None,
    }
}

/// The bank among the custom parameters of a payment.
pub open spec fn spec_bank_name(details: PaymentDetails) -> Option<Seq<char>> {
    match details.custom_parameters {
        Some(p) => opt_view(p.bank_name),
        None => None,
    }
}

/// The method behind a payment of the gateway. Only a debit can be
/// anything but a card: it is a card if it has one, else what its custom
/// brand says, `EFT` or `SCAN_TO_PAY`, and a card again in every other
/// case.
pub open spec fn spec_method_of_details(details: PaymentDetails) -> PaymentMethod {
    if opt_view(details.payment_type) != Some("DB"@) {
        PaymentMethod::Card
    } else if details.card.is_some() {
        PaymentMethod::Card
    } else if spec_custom_brand(details) == Some("EFT"@) {
        PaymentMethod::Eft
    } else if spec_custom_brand(details) == Some("SCAN_TO_PAY"@) {
        PaymentMethod::ScanToPay
    } else {
        PaymentMethod::Card
    }
}

/// The low eight bits of an expiry month.
pub open spec fn spec_month(m: Option<u64>) -> Option<u8> {
    match m {
        Some(v) => Some((v % 256) as u8),
        None => None,
    }
}

/// The low sixteen bits of an expiry year.
pub open spec fn spec_year(y: Option<u64>) -> Option<u16> {
    match y {
        Some(v) => Some((v % 65536) as u16),
        None => None,
    }
}

/// Whether an optional string is the string given.
fn opt_equals(o: &Option<String>, s: &str) -> (b: bool)
    ensures
        b == (opt_view(*o) == Some(s@)),
{
    match o {
        Some(v) => str_equal(v.as_str(), s),
        None => false,
    }
}

/// A copy of an optional string.
fn opt_clone(o: &Option<String>) -> (r: Option<String>)
    ensures
        opt_view(r) == opt_view(*o),
{
    match o {
        Some(v) => Some(v.clone()),
        None => None,
    }
}

/// The method behind a payment of the gateway; see
/// [`spec_method_of_details`].
pub fn payment_method_of(details: &PaymentDetails) -> (m: PaymentMethod)
    ensures
        m == spec_method_of_details(*details),
{
    if !opt_equals(&details.payment_type, "DB") {
        return PaymentMethod::Card;
    }
    if details.card.is_some() {
        return PaymentMethod::Card;
    }
    match &details.custom_parameters {
        Some(p) => {
            if opt_equals(&p.payment_brand, "EFT") {
                PaymentMethod::Eft
            } else if opt_equals(&p.payment_brand, "SCAN_TO_PAY") {
                PaymentMethod::ScanToPay
            } else {
                PaymentMethod::Card
            }
        },
        None => PaymentMethod::Card,
    }
}

/// The client of the payment gateway.
#[derive(Debug)]
pub struct PeachPaymentService {
    config: PeachConfig,
}

impl PeachPaymentService {
    /// The configuration the client was made with.
    pub closed spec fn spec_config(&self) -> PeachConfig {
        self.config
    }

    /// A client with the configuration given.
    pub fn new(config: PeachConfig) -> (s: Self)
        ensures
            s.spec_config() == config,
    {
        Self { config }
    }

    /// The configuration the client was made with.
    pub fn config(&self) -> (c: &PeachConfig)
        ensures
            *c == self.spec_config(),
    {
        &self.config
    }

    /// Checks that every setting a request needs is there; see
    /// [`PeachConfig::validate`].
    pub fn validate_config(&self) -> (r: Result<(), ConfigError>)
        ensures
            match spec_first_missing(self.spec_config()) {
                Some(e) => r == Err::<(), ConfigError>(e),
                None => r.is_ok(),
            },
    {
        self.config.validate()
    }

    /// The signature of `body` under the webhook secret.
    pub fn calculate_signature(&self, body: &[u8]) -> (signature: Option<String>)
        ensures
            opt_view(signature) == signature_of(
                encode_utf8(self.spec_config().webhook_secret@),
                body@,
            ),
    {
        calculate_signature(self.config.webhook_secret.as_str(), body)
    }

    /// Whether `signature` is the signature of `payload` under the webhook
    /// secret.
    pub fn validate_webhook_signature(&self, payload: &[u8], signature: &str) -> (valid: bool)
        ensures
            valid == signature_matches(
                encode_utf8(self.spec_config().webhook_secret@),
                payload@,
                signature@,
            ),
    {
        validate_signature(self.config.webhook_secret.as_str(), payload, signature)
    }

    /// The token under which the payment can be charged again, if the
    /// gateway registered one.
    pub fn extract_registration_token(&self, payment_response: &PaymentDetails) -> (token: Option<
        String,
    >)
        ensures
            opt_view(token) == opt_view(payment_response.registration_id),
    {
        opt_clone(&payment_response.registration_id)
    }

    /// The payment method to store for a user from a payment of the
    /// gateway: active, not yet the default.
    pub fn extract_payment_method_detail(
        &self,
        payment_response: &PaymentDetails,
        user_id: RecordId,
        id: RecordId,
        now: Timestamp,
    ) -> (detail: PaymentMethodDetail)
        ensures
            detail.id == id,
            detail.user_id == user_id,
            detail.payment_method == spec_method_of_details(*payment_response),
            opt_view(detail.peach_registration_id) == opt_view(payment_response.registration_id),
            payment_response.card.is_some() ==> opt_view(detail.card_last_four) == opt_view(
                payment_response.card.unwrap().last_four_digits,
            ) && opt_view(detail.card_brand) == opt_view(payment_response.card.unwrap().brand)
                && detail.expiry_month == spec_month(payment_response.card.unwrap().expiry_month)
                && detail.expiry_year == spec_year(payment_response.card.unwrap().expiry_year),
            payment_response.card.is_none() ==> detail.card_last_four.is_none()
                && detail.card_brand.is_none() && detail.expiry_month.is_none()
                && detail.expiry_year.is_none(),
            opt_view(detail.bank_name) == if detail.payment_method == PaymentMethod::Eft {
                spec_bank_name(*payment_response)
            } else {
                None
            },
            !detail.is_default,
            detail.is_active,
            detail.created_at == now,
            detail.updated_at == now,
    {
        let payment_method = payment_method_of(payment_response);
        let mut detail = PaymentMethodDetail {
            id,
            user_id,
            payment_method,
            peach_registration_id: opt_clone(&payment_response.registration_id),
            card_last_four: None,
            card_brand: None,
            expiry_month: None,
            expiry_year: None,
            bank_name: None,
            is_default: false,
            is_active: true,
            created_at: now,
            updated_at: now,
        };
        match &payment_response.card {
            Some(card) => {
                detail.card_last_four = opt_clone(&card.last_four_digits);
                detail.card_brand = opt_clone(&card.brand);
                detail.expiry_month = match card.expiry_month {
                    Some(v) => Some((v % 256) as u8),
                    None => None,
                };
                detail.expiry_year = match card.expiry_year {
                    Some(v) => Some((v % 65536) as u16),
                    None => None,
                };
            },
            None => {},
        }
        match payment_method {
            PaymentMethod::Eft => {
                detail.bank_name = match &payment_response.custom_parameters {
                    Some(p) => opt_clone(&p.bank_name),
                    None => None,
                };
            },
            _ => {},
        }
        detail
    }

    /// The request that creates the checkout of a payment: a debit of the
    /// amount asked for, in the currency asked for or in `ZAR`. A card is
    /// registered where the payer agreed to recurring charges; any other
    /// method is named as the brand to pay with.
    pub fn checkout_request(
        &self,
        request: &InitiatePaymentRequest,
        nonce: String,
        merchant_transaction_id: String,
    ) -> (r: CheckoutRequest)
        ensures
            r.entity_id@ == self.spec_config().entity_id@,
            r.amount == request.amount,
            r.currency@ == crate::payment::spec_request_currency(opt_view(request.currency)),
            r.payment_type@ == "DB"@,
            r.merchant_transaction_id@ == merchant_transaction_id@,
            r.nonce@ == nonce@,
            r.notification_url@ == self.spec_config().notification_url@,
            r.shopper_result_url@ == self.spec_config().shopper_result_url@,
            r.create_registration == spec_create_registration(*request),
            opt_view(r.payment_brand) == spec_checkout_brand(request.payment_method),
    {
        let currency = match &request.currency {
            Some(c) => c.clone(),
            None => String::from_str("ZAR"),
        };
        let create_registration = match request.payment_method {
            PaymentMethod::Card => match request.enable_recurring {
                Some(b) => b,
                None => false,
            },
            _ => false,
        };
        let payment_brand = match request.payment_method {
            PaymentMethod::Card => None,
            _ => Some(request.payment_method.to_string()),
        };
        CheckoutRequest {
            entity_id: self.config.entity_id.clone(),
            amount: request.amount,
            currency,
            payment_type: String::from_str("DB"),
            merchant_transaction_id,
            nonce,
            notification_url: self.config.notification_url.clone(),
            shopper_result_url: self.config.shopper_result_url.clone(),
            create_registration,
            payment_brand,
        }
    }

    /// The request that charges a stored token: a debit in `ZAR` of the
    /// amount given, for the customer given.
    pub fn recurring_payment_request(
        &self,
        registration_id: &str,
        amount: Amount,
        merchant_transaction_id: &str,
        user_id: &str,
        nonce: String,
    ) -> (r: RecurringPaymentRequest)
        ensures
            r.entity_id@ == self.spec_config().entity_id@,
            r.amount == amount,
            r.currency@ == "ZAR"@,
            r.payment_type@ == "DB"@,
            r.merchant_transaction_id@ == merchant_transaction_id@,
            r.nonce@ == nonce@,
            r.registration_id@ == registration_id@,
            r.merchant_customer_id@ == user_id@,
            r.notification_url@ == self.spec_config().notification_url@,
    {
        RecurringPaymentRequest {
            entity_id: self.config.entity_id.clone(),
            amount,
            currency: String::from_str("ZAR"),
            payment_type: String::from_str("DB"),
            merchant_transaction_id: String::from_str(merchant_transaction_id),
            nonce,
            registration_id: String::from_str(registration_id),
            merchant_customer_id: String::from_str(user_id),
            notification_url: self.config.notification_url.clone(),
        }
    }

    /// The address of the authentication service.
    pub fn auth_url(&self) -> (url: String)
        ensures
            url@ == self.spec_config().auth_service_url@ + "/api/oauth/token"@,
    {
        let mut url = self.config.auth_service_url.clone();
        url.append("/api/oauth/token");
        url
    }

    /// The address at which checkouts are created.
    pub fn checkout_url(&self) -> (url: String)
        ensures
            url@ == self.spec_config().checkout_endpoint@ + "/v2/checkout"@,
    {
        let mut url = self.config.checkout_endpoint.clone();
        url.append("/v2/checkout");
        url
    }

    /// The address of the checkout `checkout_id`.
    pub fn checkout_page_url(&self, checkout_id: &str) -> (url: String)
        ensures
            url@ == self.spec_config().checkout_endpoint@ + "/v2/checkout/"@ + checkout_id@,
    {
        let mut url = self.config.checkout_endpoint.clone();
        url.append("/v2/checkout/");
        url.append(checkout_id);
        url
    }

    /// The address at which the status of the checkout `checkout_id` is
    /// read.
    pub fn checkout_status_url(&self, checkout_id: &str) -> (url: String)
        ensures
            url@ == self.spec_config().status_endpoint@ + "/v2/checkout/"@ + checkout_id@
                + "/status"@,
    {
        let mut url = self.config.status_endpoint.clone();
        url.append("/v2/checkout/");
        url.append(checkout_id);
        url.append("/status");
        url
    }

    /// The address at which recurring charges are made.
    pub fn payments_url(&self) -> (url: String)
        ensures
            url@ == self.spec_config().checkout_endpoint@ + "/v2/payments"@,
    {
        let mut url = self.config.checkout_endpoint.clone();
        url.append("/v2/payments");
        url
    }

    /// The address at which the details of the payment `payment_id` are
    /// read.
    pub fn payment_details_url(&self, payment_id: &str) -> (url: String)
        ensures
            url@ == self.spec_config().checkout_endpoint@ + "/v1/payments/"@ + payment_id@,
    {
        let mut url = self.config.checkout_endpoint.clone();
        url.append("/v1/payments/");
        url.append(payment_id);
        url
    }

    /// The request that registers a payment method of a user, under the
    /// merchant transaction id whose random part is `suffix`: no amount, in
    /// `ZAR`.
    pub fn registration_request(
        &self,
        user_id: &str,
        payment_method: PaymentMethod,
        suffix: u128,
        nonce: String,
    ) -> (r: RegistrationRequest)
        ensures
            r.entity_id@ == self.spec_config().entity_id@,
            r.amount == (Amount { mantissa: 0, scale: 2 }),
            r.currency@ == "ZAR"@,
            r.payment_type@ == "RG"@,
            r.merchant_transaction_id@ == registration_prefix() + simple_hex(suffix),
            r.nonce@ == nonce@,
            r.merchant_customer_id@ == user_id@,
            r.payment_method@ == payment_method.spec_label(),
            r.notification_url@ == self.spec_config().notification_url@,
            r.shopper_result_url@ == self.spec_config().shopper_result_url@,
    {
        RegistrationRequest {
            entity_id: self.config.entity_id.clone(),
            amount: Amount { mantissa: 0, scale: 2 },
            currency: String::from_str("ZAR"),
            payment_type: String::from_str("RG"),
            merchant_transaction_id: registration_transaction_id_from(suffix),
            nonce,
            merchant_customer_id: String::from_str(user_id),
            payment_method: payment_method.to_string(),
            notification_url: self.config.notification_url.clone(),
            shopper_result_url: self.config.shopper_result_url.clone(),
        }
    }

    /// The request that refunds `amount` of a payment, in `ZAR`.
    pub fn refund_request(&self, amount: Amount) -> (r: RefundRequest)
        ensures
            r.entity_id@ == self.spec_config().entity_id@,
            r.amount == amount,
            r.currency@ == "ZAR"@,
            r.payment_type@ == "RF"@,
    {
        RefundRequest {
            entity_id: self.config.entity_id.clone(),
            amount,
            currency: String::from_str("ZAR"),
            payment_type: String::from_str("RF"),
        }
    }

    /// The address at which the payment `payment_id` is refunded.
    pub fn refund_url(&self, payment_id: &str) -> (url: String)
        ensures
            url@ == self.spec_config().checkout_endpoint@ + "/v1/payments/"@ + payment_id@
                + "/refund"@,
    {
        let mut url = self.config.checkout_endpoint.clone();
        url.append("/v1/payments/");
        url.append(payment_id);
        url.append("/refund");
        url
    }

    /// A request to try a checkout with: a card payment of `amount` in
    /// `ZAR` with recurring charges agreed to, for the user and the
    /// subscription given.
    pub fn test_checkout_request(&self, user_id: RecordId, subscription_id: RecordId, amount: Amount) -> (r:
        InitiatePaymentRequest)
        ensures
            r.user_id == user_id,
            r.subscription_id == subscription_id,
            r.amount == amount,
            opt_view(r.currency) == Some("ZAR"@),
            r.payment_method == PaymentMethod::Card,
            r.enable_recurring == Some(true),
            r.return_url.is_none(),
            r.webhook_url.is_none(),
    {
        InitiatePaymentRequest {
            user_id,
            subscription_id,
            amount,
            currency: Some(String::from_str("ZAR")),
            payment_method: PaymentMethod::Card,
            enable_recurring: Some(true),
            return_url: None,
            webhook_url: None,
        }
    }
}

} // verus!
