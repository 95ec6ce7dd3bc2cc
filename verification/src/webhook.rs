//! Verification and ingestion of the gateway's notifications.
//!
//! A notification arrives as a form-encoded body that carries its own
//! signature. It is verified against the canonical payload of the form,
//! parsed once into a typed [`WebhookEvent`], and then drives the two
//! ledgers. The gateway delivers at least once, so ingestion is idempotent:
//! an event that is delivered again changes nothing and asks for nothing.

use vstd::prelude::*;
use vstd::string::*;
use vstd::utf8::{encode_utf8, valid_utf8};
use crate::common::{opt_ref_view, opt_str_view, opt_view, PaymentMethod};
use crate::config::SignatureScheme;
use crate::error::BillingError;
use crate::form::{form_pairs, lookup, sorted_fields, Field, FormData};
use crate::ids::RecordId;
use crate::payment::{
    spec_set_recurring_token, spec_status_applied, spec_status_of_code, transition_allowed,
    PaymentStatus, PaymentType, PaymentView,
};
use crate::payment_ledger::{
    lemma_txn_index, lemma_txn_index_after_update, txn_index, PaymentLedger,
};
use crate::signature::{
    canonical_payload, create_signature_payload, signature_key, signature_matches,
    validate_signature,
};
use crate::subscription::{
    spec_activate, spec_renew, spec_set_payment_details, SubscriptionStatus, SubscriptionView,
};
use crate::subscription_ledger::{
    lemma_sub_index, lemma_sub_index_after_update, sub_index, SubscriptionLedger,
};
use crate::text::{lowercase, str_equal, to_lowercase};
use crate::time::{current_time, Timestamp};

verus! {

/// One notification of the gateway, verified and parsed.
#[derive(Debug)]
pub struct WebhookEvent {
    pub result_code: String,
    pub merchant_transaction_id: String,
    /// The subscription the checkout was made for, as the merchant sent it.
    pub subscription_id: Option<String>,
    /// The token of a payment method that the gateway registered.
    pub registration_id: Option<String>,
    /// The gateway's id of the payment.
    pub payment_id: Option<String>,
    pub payment_brand: Option<String>,
}

/// A notification as a mathematical value.
pub struct WebhookEventView {
    pub result_code: Seq<char>,
    pub merchant_transaction_id: Seq<char>,
    pub subscription_id: Option<Seq<char>>,
    pub registration_id: Option<Seq<char>>,
    pub payment_id: Option<Seq<char>>,
    pub payment_brand: Option<Seq<char>>,
}

impl View for WebhookEvent {
    type V = WebhookEventView;

    open spec fn view(&self) -> WebhookEventView {
        WebhookEventView {
            result_code: self.result_code@,
            merchant_transaction_id: self.merchant_transaction_id@,
            subscription_id: opt_view(self.subscription_id),
            registration_id: opt_view(self.registration_id),
            payment_id: opt_view(self.payment_id),
            payment_brand: opt_view(self.payment_brand),
        }
    }
}

/// The first of two optional values that is there.
pub open spec fn or_else(first: Option<Seq<char>>, second: Option<Seq<char>>) -> Option<Seq<char>> {
    match first {
        Some(v) => Some(v),
        None => second,
    }
}

/// The event that a form holds. The result code and the merchant
/// transaction id are required. The subscription id is read from the custom
/// parameter `subscription_id`, whose key may arrive with its brackets
/// literal or percent-encoded.
pub open spec fn spec_parse_event(fields: Seq<Field>) -> Result<WebhookEventView, BillingError> {
    match (lookup(fields, "result.code"@), lookup(fields, "merchantTransactionId"@)) {
        (Some(result_code), Some(merchant_transaction_id)) => Ok(
            WebhookEventView {
                result_code,
                merchant_transaction_id,
                subscription_id: or_else(
                    lookup(fields, "customParameters[subscription_id]"@),
                    lookup(fields, "customParameters%5Bsubscription_id%5D"@),
                ),
                registration_id: lookup(fields, "registrationId"@),
                payment_id: lookup(fields, "id"@),
                payment_brand: lookup(fields, "paymentBrand"@),
            },
        ),
        _ => Err(BillingError::MissingField),
    }
}

/// A copy of an optional field of a form.
fn owned(value: Option<&String>) -> (r: Option<String>)
    ensures
        match value {
            Some(v) => opt_view(r) == Some(v@),
            None => r.is_none(),
        },
{
    match value {
        Some(v) => Some(v.clone()),
        None => None,
    }
}

impl WebhookEvent {
    /// The event that a form holds; see [`spec_parse_event`].
    pub fn parse(form: &FormData) -> (r: Result<WebhookEvent, BillingError>)
        ensures
            match spec_parse_event(form@) {
                Ok(v) => r.is_ok() && r.unwrap()@ == v,
                Err(e) => r.is_err() && r.unwrap_err() == e,
            },
    {
        let result_code = match form.get("result.code") {
            Some(v) => v.clone(),
            None => {
                return Err(BillingError::MissingField);
            },
        };
        let merchant_transaction_id = match form.get("merchantTransactionId") {
            Some(v) => v.clone(),
            None => {
                return Err(BillingError::MissingField);
            },
        };
        let subscription_id = match form.get("customParameters[subscription_id]") {
            Some(v) => Some(v.clone()),
            None => owned(form.get("customParameters%5Bsubscription_id%5D")),
        };
        Ok(
            WebhookEvent {
                result_code,
                merchant_transaction_id,
                subscription_id,
                registration_id: owned(form.get("registrationId")),
                payment_id: owned(form.get("id")),
                payment_brand: owned(form.get("paymentBrand")),
            },
        )
    }

    /// The status the event asks its payment to take.
    pub fn target_status(&self) -> (s: PaymentStatus)
        ensures
            s == spec_status_of_code(self.result_code@),
    {
        PaymentStatus::from_peach_code(self.result_code.as_str())
    }
}

/// The result of a payment as the gateway words it.
#[derive(Debug)]
pub struct WebhookResult {
    pub code: String,
    pub description: String,
}

/// A notification that arrives as a document rather than as a form.
#[derive(Debug)]
pub struct PaymentWebhookPayload {
    /// The gateway's id of the payment.
    pub id: String,
    pub merchant_transaction_id: String,
    pub result: WebhookResult,
    pub amount: String,
    pub currency: String,
    pub payment_type: String,
    pub registration_id: Option<String>,
    pub timestamp: String,
    pub ndc: Option<String>,
    pub checkout_id: Option<String>,
}

impl PaymentWebhookPayload {
    /// The event that the document reports. It names no subscription and
    /// no brand.
    pub fn to_event(&self) -> (event: WebhookEvent)
        ensures
            event@ == (WebhookEventView {
                result_code: self.result.code@,
                merchant_transaction_id: self.merchant_transaction_id@,
                subscription_id: None,
                registration_id: opt_view(self.registration_id),
                payment_id: Some(self.id@),
                payment_brand: None,
            }),
    {
        let registration_id = match &self.registration_id {
            Some(r) => Some(r.clone()),
            None => None,
        };
        WebhookEvent {
            result_code: self.result.code.clone(),
            merchant_transaction_id: self.merchant_transaction_id.clone(),
            subscription_id: None,
            registration_id,
            payment_id: Some(self.id.clone()),
            payment_brand: None,
        }
    }
}

/// The payment method behind a brand name in lowercase. Card brands and
/// every unknown brand count as a card.
pub open spec fn spec_method_of_lowercase_brand(brand: Seq<char>) -> PaymentMethod {
    if brand == "eft"@ || brand == "ozow"@ {
        PaymentMethod::Eft
    } else if brand == "1voucher"@ || brand == "1foryou"@ {
        PaymentMethod::OneVoucher
    } else if brand == "scan_to_pay"@ || brand == "scantopay"@ || brand == "masterpass"@ {
        PaymentMethod::ScanToPay
    } else {
        PaymentMethod::Card
    }
}

/// The payment method behind a brand name as the gateway reports it, in
/// whatever case.
pub open spec fn spec_method_of_brand(brand: Seq<char>) -> PaymentMethod {
    spec_method_of_lowercase_brand(lowercase(brand))
}

/// The payment method behind a brand name in lowercase; see
/// [`spec_method_of_lowercase_brand`].
pub fn payment_method_from_lowercase_brand(brand: &str) -> (m: PaymentMethod)
    ensures
        m == spec_method_of_lowercase_brand(brand@),
{
    if str_equal(brand, "eft") || str_equal(brand, "ozow") {
        PaymentMethod::Eft
    } else if str_equal(brand, "1voucher") || str_equal(brand, "1foryou") {
        PaymentMethod::OneVoucher
    } else if str_equal(brand, "scan_to_pay") || str_equal(brand, "scantopay") || str_equal(
        brand,
        "masterpass",
    ) {
        PaymentMethod::ScanToPay
    } else {
        PaymentMethod::Card
    }
}

/// The payment method behind a brand name as the gateway reports it.
pub fn payment_method_from_brand(brand: &str) -> (m: PaymentMethod)
    ensures
        m == spec_method_of_brand(brand@),
{
    let lower = to_lowercase(brand);
    payment_method_from_lowercase_brand(lower.as_str())
}

/// What became of the payment of an event.
#[derive(Clone, Copy, Debug, PartialEq, Eq, Structural)]
pub enum PaymentDisposition {
    /// No payment has the merchant transaction id. Nothing was created.
    NotFound,
    /// The payment may not take the status; it was left as it is.
    Rejected,
    /// The payment had the status already.
    Unchanged,
    /// The payment took the status.
    Moved,
}

/// What became of the subscription of an event.
#[derive(Clone, Copy, Debug, PartialEq, Eq, Structural)]
pub enum SubscriptionDisposition {
    /// The event gave no cause to touch a subscription.
    NotConcerned,
    /// The payment is linked to a subscription that does not exist.
    NotFound,
    /// The subscription is neither pending nor running; it was left alone.
    Untouched,
    Activated,
    Renewed,
    /// The transition was refused.
    Failed(BillingError),
}

/// What ingesting an event did and what is left to do.
#[derive(Clone, Copy, Debug, PartialEq, Eq, Structural)]
pub struct IngestOutcome {
    pub target_status: PaymentStatus,
    pub payment: PaymentDisposition,
    pub subscription: SubscriptionDisposition,
    /// Whether the caller is to fetch the details of the payment from the
    /// gateway and store its payment method for the user. This is asked for
    /// once in the life of a payment.
    pub store_payment_method: bool,
}

/// The ledgers as mathematical values.
pub struct Books {
    pub payments: Seq<PaymentView>,
    pub subscriptions: Seq<SubscriptionView>,
}

/// The payment ledger after an event asked the payment `txn` to take the
/// status `target`, and what became of the payment.
pub open spec fn spec_settle(
    payments: Seq<PaymentView>,
    txn: Seq<char>,
    target: PaymentStatus,
    now: Timestamp,
) -> (Seq<PaymentView>, PaymentDisposition) {
    let i = txn_index(payments, txn);
    if i >= payments.len() {
        (payments, PaymentDisposition::NotFound)
    } else if !transition_allowed(payments[i].status, target) {
        (payments, PaymentDisposition::Rejected)
    } else if payments[i].status == target {
        (payments, PaymentDisposition::Unchanged)
    } else {
        (
            payments.update(i, spec_status_applied(payments[i], target, None, now)),
            PaymentDisposition::Moved,
        )
    }
}

/// The subscription `s` with the brand of a completed payment recorded, if
/// the event named one.
pub open spec fn spec_with_brand(
    s: SubscriptionView,
    brand: Option<Seq<char>>,
    now: Timestamp,
) -> SubscriptionView {
    match brand {
        Some(b) => spec_set_payment_details(s, spec_method_of_brand(b), Some(b), now),
        None => s,
    }
}

/// The subscription ledger after a payment for the subscription `id` was
/// completed, and what became of the subscription: a pending subscription
/// is activated and a running one is renewed; the brand of the payment is
/// recorded on a subscription that exists, whatever its state.
pub open spec fn spec_advance(
    subs: Seq<SubscriptionView>,
    id: RecordId,
    brand: Option<Seq<char>>,
    now: Timestamp,
    grace_period_days: u32,
) -> (Seq<SubscriptionView>, SubscriptionDisposition) {
    let i = sub_index(subs, id);
    if i >= subs.len() {
        (subs, SubscriptionDisposition::NotFound)
    } else if subs[i].status == SubscriptionStatus::Pending {
        match spec_activate(subs[i], now, grace_period_days) {
            Ok(v) => (subs.update(i, spec_with_brand(v, brand, now)), SubscriptionDisposition::Activated),
            Err(e) => (
                subs.update(i, spec_with_brand(subs[i], brand, now)),
                SubscriptionDisposition::Failed(e),
            ),
        }
    } else if subs[i].status.spec_is_running() {
        match spec_renew(subs[i], now, grace_period_days) {
            Ok(v) => (subs.update(i, spec_with_brand(v, brand, now)), SubscriptionDisposition::Renewed),
            Err(e) => (
                subs.update(i, spec_with_brand(subs[i], brand, now)),
                SubscriptionDisposition::Failed(e),
            ),
        }
    } else {
        (subs.update(i, spec_with_brand(subs[i], brand, now)), SubscriptionDisposition::Untouched)
    }
}

/// Whether an event is the first to bring a payment method to store for
/// the payment `txn`: the payment is completed, no method was stored from
/// it yet, and the event carries a registration id.
pub open spec fn spec_may_claim(
    payments: Seq<PaymentView>,
    txn: Seq<char>,
    registration_id: Option<Seq<char>>,
) -> bool {
    let i = txn_index(payments, txn);
    i < payments.len() && payments[i].status == PaymentStatus::Completed && payments[i].payment_type
        != PaymentType::Recurring && registration_id.is_some()
}

/// The payment ledger after the registration id of an event was claimed
/// for the payment `txn`: where [`spec_may_claim`] holds, the id is stored
/// as the recurring token of the payment, which marks it as recurring.
pub open spec fn spec_claim(
    payments: Seq<PaymentView>,
    txn: Seq<char>,
    registration_id: Option<Seq<char>>,
    now: Timestamp,
) -> Seq<PaymentView> {
    if spec_may_claim(payments, txn, registration_id) {
        let i = txn_index(payments, txn);
        payments.update(i, spec_set_recurring_token(payments[i], registration_id.unwrap(), now))
    } else {
        payments
    }
}

/// The subscription a payment is linked to, when the payment `txn` exists
/// and has one.
pub open spec fn spec_linked_subscription(payments: Seq<PaymentView>, txn: Seq<char>) -> Option<
    RecordId,
> {
    let i = txn_index(payments, txn);
    if i < payments.len() {
        payments[i].subscription_id
    } else {
        None
    }
}

/// The ledgers after an event was ingested at `now`, and the outcome.
///
/// The payment takes the status that the result code stands for, if it
/// may. Only a payment that this event moved to `Completed` advances its
/// subscription. A registration id is claimed once for a completed
/// payment.
pub open spec fn spec_ingest(
    books: Books,
    event: WebhookEventView,
    now: Timestamp,
    grace_period_days: u32,
) -> (Books, IngestOutcome) {
    let txn = event.merchant_transaction_id;
    let target = spec_status_of_code(event.result_code);
    let (settled, payment) = spec_settle(books.payments, txn, target, now);
    let completed_now = payment == PaymentDisposition::Moved && target == PaymentStatus::Completed;
    let (subscriptions, subscription) = match spec_linked_subscription(settled, txn) {
        Some(id) if completed_now => spec_advance(
            books.subscriptions,
            id,
            event.payment_brand,
            now,
            grace_period_days,
        ),
        _ => (books.subscriptions, SubscriptionDisposition::NotConcerned),
    };
    let accepted = payment == PaymentDisposition::Moved || payment == PaymentDisposition::Unchanged;
    let store = accepted && spec_may_claim(settled, txn, event.registration_id);
    let payments = if accepted {
        spec_claim(settled, txn, event.registration_id, now)
    } else {
        settled
    };
    (
        Books { payments, subscriptions },
        IngestOutcome {
            target_status: target,
            payment,
            subscription,
            store_payment_method: store,
        },
    )
}

/// Steps two to four of ingestion: finds the payment of an event and
/// moves it to the status asked for, if it may; see [`spec_settle`].
pub fn settle_payment(
    payments: &mut PaymentLedger,
    txn: &str,
    target: PaymentStatus,
    now: Timestamp,
) -> (d: PaymentDisposition)
    ensures
        (final(payments)@, d) == spec_settle(old(payments)@, txn@, target, now),
        old(payments).wf() ==> final(payments).wf(),
{
    let i = payments.position(txn);
    if i >= payments.len() {
        return PaymentDisposition::NotFound;
    }
    let current = payments.payment_at(i).status;
    if !current.can_become(target) {
        return PaymentDisposition::Rejected;
    }
    if current == target {
        return PaymentDisposition::Unchanged;
    }
    let _ = payments.apply_status(txn, target, None, now);
    PaymentDisposition::Moved
}

/// Step five of ingestion: advances the subscription that a completed
/// payment was made for; see [`spec_advance`].
pub fn advance_subscription(
    subscriptions: &mut SubscriptionLedger,
    id: RecordId,
    brand: Option<&String>,
    now: Timestamp,
    grace_period_days: u32,
) -> (d: SubscriptionDisposition)
    ensures
        (final(subscriptions)@, d) == spec_advance(
            old(subscriptions)@,
            id,
            opt_ref_view(brand),
            now,
            grace_period_days,
        ),
        old(subscriptions).wf() ==> final(subscriptions).wf(),
{
    let i = subscriptions.position(id);
    if i >= subscriptions.len() {
        return SubscriptionDisposition::NotFound;
    }
    proof {
        lemma_sub_index(old(subscriptions)@, id);
    }
    let status = subscriptions.subscription_at(i).status;
    let d = match status {
        SubscriptionStatus::Pending => match subscriptions.activate(id, now, grace_period_days) {
            Ok(_) => SubscriptionDisposition::Activated,
            Err(e) => SubscriptionDisposition::Failed(e),
        },
        SubscriptionStatus::Active | SubscriptionStatus::Grace => match subscriptions.renew(
            id,
            now,
            grace_period_days,
        ) {
            Ok(_) => SubscriptionDisposition::Renewed,
            Err(e) => SubscriptionDisposition::Failed(e),
        },
        _ => SubscriptionDisposition::Untouched,
    };
    let ghost advanced = subscriptions@;
    proof {
        assert(old(subscriptions)@.update(i as int, old(subscriptions)@[i as int]) =~= old(
            subscriptions,
        )@);
        assert(advanced == old(subscriptions)@.update(i as int, advanced[i as int]));
        lemma_sub_index_after_update(old(subscriptions)@, id, advanced[i as int]);
    }
    match brand {
        Some(b) => {
            let method = payment_method_from_brand(b.as_str());
            let _ = subscriptions.set_payment_details(id, method, Some(b.clone()), now);
            proof {
                assert(subscriptions@ =~= old(subscriptions)@.update(
                    i as int,
                    subscriptions@[i as int],
                ));
            }
        },
        None => {},
    }
    d
}

/// Step six of ingestion: claims the registration id of an event for its
/// payment, and says whether the caller is to store the payment method; see
/// [`spec_may_claim`] and [`spec_claim`]. The test and the mark are one
/// step, so an event that is delivered again finds the mark.
pub fn claim_payment_method(
    payments: &mut PaymentLedger,
    txn: &str,
    registration_id: Option<&String>,
    now: Timestamp,
) -> (claimed: bool)
    ensures
        claimed == spec_may_claim(
            old(payments)@,
            txn@,
            opt_ref_view(registration_id),
        ),
        final(payments)@ == spec_claim(
            old(payments)@,
            txn@,
            opt_ref_view(registration_id),
            now,
        ),
        old(payments).wf() ==> final(payments).wf(),
{
    let i = payments.position(txn);
    if i >= payments.len() {
        return false;
    }
    let payment = payments.payment_at(i);
    if payment.status != PaymentStatus::Completed || payment.is_recurring() {
        return false;
    }
    match registration_id {
        Some(r) => {
            let _ = payments.store_recurring_token(txn, r.clone(), now);
            true
        },
        None => false,
    }
}

/// An optional string, borrowed.
fn as_opt_ref(o: &Option<String>) -> (r: Option<&String>)
    ensures
        opt_ref_view(r) == opt_view(*o),
{
    match o {
        Some(s) => Some(s),
        None => None,
    }
}

/// Ingests a verified event at `now`: steps two to seven of the pipeline;
/// see [`spec_ingest`].
pub fn ingest_event(
    payments: &mut PaymentLedger,
    subscriptions: &mut SubscriptionLedger,
    event: &WebhookEvent,
    now: Timestamp,
    grace_period_days: u32,
) -> (outcome: IngestOutcome)
    ensures
        (Books { payments: final(payments)@, subscriptions: final(subscriptions)@ }, outcome)
            == spec_ingest(
            Books { payments: old(payments)@, subscriptions: old(subscriptions)@ },
            event@,
            now,
            grace_period_days,
        ),
        old(payments).wf() ==> final(payments).wf(),
        old(subscriptions).wf() ==> final(subscriptions).wf(),
{
    let txn = event.merchant_transaction_id.as_str();
    let target = event.target_status();
    let payment = settle_payment(payments, txn, target, now);
    let completed_now = payment == PaymentDisposition::Moved && target == PaymentStatus::Completed;
    let linked = match payments.get_payment_by_merchant_id(txn) {
        Some(p) => p.subscription_id,
        None => None,
    };
    let subscription = match linked {
        Some(id) => {
            if completed_now {
                advance_subscription(
                    subscriptions,
                    id,
                    as_opt_ref(&event.payment_brand),
                    now,
                    grace_period_days,
                )
            } else {
                SubscriptionDisposition::NotConcerned
            }
        },
        None => SubscriptionDisposition::NotConcerned,
    };
    let accepted = payment == PaymentDisposition::Moved || payment == PaymentDisposition::Unchanged;
    let store = if accepted {
        claim_payment_method(payments, txn, as_opt_ref(&event.registration_id), now)
    } else {
        false
    };
    IngestOutcome { target_status: target, payment, subscription, store_payment_method: store }
}

/// The fields of a body whose signature is that of its content.
///
/// A body that is not a form is refused as malformed; a form without a
/// signature, or with an empty one, as unsigned; a signature that is not
/// the HMAC-SHA256 of the canonical payload under `secret`, as a mismatch.
pub open spec fn spec_verify(body: Seq<u8>, secret: Seq<char>) -> Result<Seq<Field>, BillingError> {
    if !valid_utf8(body) || form_pairs(body).is_none() {
        Err(BillingError::MalformedBody)
    } else {
        let fields = sorted_fields(form_pairs(body).unwrap());
        match lookup(fields, signature_key()) {
            None => Err(BillingError::MissingSignature),
            Some(signature) => if signature.len() == 0 {
                Err(BillingError::MissingSignature)
            } else if signature_matches(
                encode_utf8(secret),
                encode_utf8(canonical_payload(fields)),
                signature,
            ) {
                Ok(fields)
            } else {
                Err(BillingError::SignatureMismatch)
            },
        }
    }
}

/// Step one of ingestion: decodes a body and checks its signature; see
/// [`spec_verify`].
pub fn verify_webhook(body: &[u8], secret: &str) -> (r: Result<FormData, BillingError>)
    ensures
        match spec_verify(body@, secret@) {
            Ok(fields) => r.is_ok() && r.unwrap()@ == fields,
            Err(e) => r.is_err() && r.unwrap_err() == e,
        },
{
    let form = match FormData::parse(body) {
        Ok(form) => form,
        Err(e) => {
            return Err(e);
        },
    };
    let valid = match form.get("signature") {
        None => {
            return Err(BillingError::MissingSignature);
        },
        Some(signature) => {
            if signature.as_str().is_empty() {
                return Err(BillingError::MissingSignature);
            }
            let payload = create_signature_payload(&form);
            validate_signature(secret, payload.as_str().as_bytes(), signature.as_str())
        },
    };
    if valid {
        Ok(form)
    } else {
        Err(BillingError::SignatureMismatch)
    }
}

/// The answer to a notification.
#[derive(Clone, Copy, Debug, PartialEq, Eq, Structural)]
pub struct WebhookResponse {
    /// The HTTP status: 200, 400 or 401.
    pub status: u16,
    /// Why the notification was refused, or why a verified one could not
    /// be read.
    pub error: Option<BillingError>,
    /// What ingestion did, for a notification that was ingested.
    pub outcome: Option<IngestOutcome>,
}

/// The fields of a body that was signed as it is, with the signature
/// travelling beside it.
///
/// A missing or empty signature is refused as unsigned, a signature that
/// is not the HMAC-SHA256 of the bytes of the body under `secret` as a
/// mismatch, and a body that is not a form as malformed.
pub open spec fn spec_verify_raw(
    body: Seq<u8>,
    signature: Option<Seq<char>>,
    secret: Seq<char>,
) -> Result<Seq<Field>, BillingError> {
    if signature.is_none() || signature.unwrap().len() == 0 {
        Err(BillingError::MissingSignature)
    } else if !signature_matches(encode_utf8(secret), body, signature.unwrap()) {
        Err(BillingError::SignatureMismatch)
    } else if !valid_utf8(body) || form_pairs(body).is_none() {
        Err(BillingError::MalformedBody)
    } else {
        Ok(sorted_fields(form_pairs(body).unwrap()))
    }
}

/// The fields of a body verified under the scheme given.
pub open spec fn spec_verify_under(
    scheme: SignatureScheme,
    body: Seq<u8>,
    signature: Option<Seq<char>>,
    secret: Seq<char>,
) -> Result<Seq<Field>, BillingError> {
    match scheme {
        SignatureScheme::SortedFields => spec_verify(body, secret),
        SignatureScheme::RawBody => spec_verify_raw(body, signature, secret),
    }
}

/// The answer to a notification whose verification ended as `verified`,
/// and the ledgers after it.
///
/// A body that cannot be read or is not signed is answered with 400, a
/// wrong signature with 401, and neither changes anything. Once the
/// signature holds the answer is 200, whatever ingestion then does, so that
/// the gateway stops delivering.
pub open spec fn spec_answer(
    books: Books,
    verified: Result<Seq<Field>, BillingError>,
    now: Timestamp,
    grace_period_days: u32,
) -> (Books, WebhookResponse) {
    match verified {
        Err(e) => (
            books,
            WebhookResponse {
                status: if e == BillingError::SignatureMismatch {
                    401
                } else {
                    400
                },
                error: Some(e),
                outcome: None,
            },
        ),
        Ok(fields) => match spec_parse_event(fields) {
            Err(e) => (books, WebhookResponse { status: 200, error: Some(e), outcome: None }),
            Ok(event) => {
                let (after, outcome) = spec_ingest(books, event, now, grace_period_days);
                (after, WebhookResponse { status: 200, error: None, outcome: Some(outcome) })
            },
        },
    }
}

/// The answer to a notification that signs the canonical payload of its
/// form, and the ledgers after it; see [`spec_answer`].
pub open spec fn spec_handle_webhook(
    books: Books,
    body: Seq<u8>,
    secret: Seq<char>,
    now: Timestamp,
    grace_period_days: u32,
) -> (Books, WebhookResponse) {
    spec_answer(books, spec_verify(body, secret), now, grace_period_days)
}

impl WebhookResponse {
    /// The body of the answer. It never holds a signature.
    pub open spec fn spec_body(self) -> Seq<char> {
        match self.error {
            Some(e) if self.status != 200 => e.spec_message(),
            _ => "Webhook received"@,
        }
    }

    /// The body of the answer.
    pub fn body(&self) -> (s: &'static str)
        ensures
            s@ == self.spec_body(),
    {
        match self.error {
            Some(e) => {
                if self.status != 200 {
                    e.message()
                } else {
                    "Webhook received"
                }
            },
            None => "Webhook received",
        }
    }
}

/// Step one of ingestion for a body that was signed as it is: checks the
/// signature that came beside the body and decodes the body; see
/// [`spec_verify_raw`].
pub fn verify_webhook_raw(body: &[u8], signature: Option<&str>, secret: &str) -> (r: Result<
    FormData,
    BillingError,
>)
    ensures
        match spec_verify_raw(
            body@,
            opt_str_view(signature),
            secret@,
        ) {
            Ok(fields) => r.is_ok() && r.unwrap()@ == fields,
            Err(e) => r.is_err() && r.unwrap_err() == e,
        },
{
    let signature = match signature {
        Some(s) => s,
        None => {
            return Err(BillingError::MissingSignature);
        },
    };
    if signature.is_empty() {
        return Err(BillingError::MissingSignature);
    }
    if !validate_signature(secret, body, signature) {
        return Err(BillingError::SignatureMismatch);
    }
    FormData::parse(body)
}

/// Answers a notification whose verification ended as `verified`: a
/// refusal is answered and changes nothing, a verified form is parsed and
/// ingested at `now`; see [`spec_answer`].
pub fn answer_webhook(
    payments: &mut PaymentLedger,
    subscriptions: &mut SubscriptionLedger,
    verified: Result<FormData, BillingError>,
    now: Timestamp,
    grace_period_days: u32,
) -> (response: WebhookResponse)
    ensures
        (Books { payments: final(payments)@, subscriptions: final(subscriptions)@ }, response)
            == spec_answer(
            Books { payments: old(payments)@, subscriptions: old(subscriptions)@ },
            match verified {
                Ok(form) => Ok::<Seq<Field>, BillingError>(form@),
                Err(e) => Err::<Seq<Field>, BillingError>(e),
            },
            now,
            grace_period_days,
        ),
        old(payments).wf() ==> final(payments).wf(),
        old(subscriptions).wf() ==> final(subscriptions).wf(),
{
    let form = match verified {
        Ok(form) => form,
        Err(e) => {
            let status: u16 = match e {
                BillingError::SignatureMismatch => 401,
                _ => 400,
            };
            return WebhookResponse { status, error: Some(e), outcome: None };
        },
    };
    match WebhookEvent::parse(&form) {
        Err(e) => WebhookResponse { status: 200, error: Some(e), outcome: None },
        Ok(event) => {
            let outcome = ingest_event(payments, subscriptions, &event, now, grace_period_days);
            WebhookResponse { status: 200, error: None, outcome: Some(outcome) }
        },
    }
}

/// Handles one notification at `now`: verifies it against the canonical
/// payload of its form, parses it and ingests it; see
/// [`spec_handle_webhook`].
pub fn handle_webhook(
    payments: &mut PaymentLedger,
    subscriptions: &mut SubscriptionLedger,
    body: &[u8],
    secret: &str,
    now: Timestamp,
    grace_period_days: u32,
) -> (response: WebhookResponse)
    ensures
        (Books { payments: final(payments)@, subscriptions: final(subscriptions)@ }, response)
            == spec_handle_webhook(
            Books { payments: old(payments)@, subscriptions: old(subscriptions)@ },
            body@,
            secret@,
            now,
            grace_period_days,
        ),
        old(payments).wf() ==> final(payments).wf(),
        old(subscriptions).wf() ==> final(subscriptions).wf(),
{
    let verified = verify_webhook(body, secret);
    answer_webhook(payments, subscriptions, verified, now, grace_period_days)
}

/// Handles one notification at `now` under the scheme given. Under
/// [`SignatureScheme::RawBody`] the signature is the one that came beside
/// the body; under [`SignatureScheme::SortedFields`] it is read from the
/// form and `signature` is not looked at.
pub fn handle_webhook_under(
    scheme: SignatureScheme,
    payments: &mut PaymentLedger,
    subscriptions: &mut SubscriptionLedger,
    body: &[u8],
    signature: Option<&str>,
    secret: &str,
    now: Timestamp,
    grace_period_days: u32,
) -> (response: WebhookResponse)
    ensures
        (Books { payments: final(payments)@, subscriptions: final(subscriptions)@ }, response)
            == spec_answer(
            Books { payments: old(payments)@, subscriptions: old(subscriptions)@ },
            spec_verify_under(
                scheme,
                body@,
                opt_str_view(signature),
                secret@,
            ),
            now,
            grace_period_days,
        ),
        old(payments).wf() ==> final(payments).wf(),
        old(subscriptions).wf() ==> final(subscriptions).wf(),
{
    let verified = match scheme {
        SignatureScheme::SortedFields => verify_webhook(body, secret),
        SignatureScheme::RawBody => verify_webhook_raw(body, signature, secret),
    };
    answer_webhook(payments, subscriptions, verified, now, grace_period_days)
}

/// Handles one notification at the present time.
pub fn payment_callback(
    payments: &mut PaymentLedger,
    subscriptions: &mut SubscriptionLedger,
    body: &[u8],
    secret: &str,
    grace_period_days: u32,
) -> (response: WebhookResponse)
    ensures
        exists|now: Timestamp|
            (Books { payments: final(payments)@, subscriptions: final(subscriptions)@ }, response)
                == #[trigger] spec_handle_webhook(
                Books { payments: old(payments)@, subscriptions: old(subscriptions)@ },
                body@,
                secret@,
                now,
                grace_period_days,
            ),
        old(payments).wf() ==> final(payments).wf(),
        old(subscriptions).wf() ==> final(subscriptions).wf(),
{
    let now = current_time();
    handle_webhook(payments, subscriptions, body, secret, now, grace_period_days)
}

/// Ingestion is idempotent. An event that is delivered again, at whatever
/// time, leaves both ledgers exactly as the first delivery left them: the
/// payment does not move, no subscription is touched, and the caller is
/// not asked a second time to store a payment method.
pub proof fn ingest_is_idempotent(
    books: Books,
    event: WebhookEventView,
    first_time: Timestamp,
    second_time: Timestamp,
    grace_period_days: u32,
)
    ensures
        ({
            let (after, first) = spec_ingest(books, event, first_time, grace_period_days);
            let (again, second) = spec_ingest(after, event, second_time, grace_period_days);
            &&& again == after
            &&& second.payment != PaymentDisposition::Moved
            &&& second.subscription == SubscriptionDisposition::NotConcerned
            &&& !second.store_payment_method
        }),
{
    let txn = event.merchant_transaction_id;
    let target = spec_status_of_code(event.result_code);
    let (after, first) = spec_ingest(books, event, first_time, grace_period_days);
    let (settled, payment) = spec_settle(books.payments, txn, target, first_time);
    let i = txn_index(books.payments, txn);
    lemma_txn_index(books.payments, txn);
    if i < books.payments.len() {
        lemma_txn_index_after_update(books.payments, txn, settled[i]);
        assert(books.payments.update(i, books.payments[i]) =~= books.payments);
        assert(txn_index(settled, txn) == i);
        lemma_txn_index_after_update(settled, txn, after.payments[i]);
        assert(settled.update(i, settled[i]) =~= settled);
        assert(txn_index(after.payments, txn) == i);
        let (resettled, _) = spec_settle(after.payments, txn, target, second_time);
        assert(resettled == after.payments);
        if first.payment == PaymentDisposition::Moved || first.payment
            == PaymentDisposition::Unchanged {
            assert(!spec_may_claim(after.payments, txn, event.registration_id));
        }
    }
}

/// A payment that an event cannot move is left alone, and so is every
/// subscription: a failed payment that is reported as completed stays
/// failed, and nothing is activated.
pub proof fn rejected_event_changes_nothing(
    books: Books,
    event: WebhookEventView,
    now: Timestamp,
    grace_period_days: u32,
)
    requires
        spec_ingest(books, event, now, grace_period_days).1.payment == PaymentDisposition::Rejected
            || spec_ingest(books, event, now, grace_period_days).1.payment
            == PaymentDisposition::NotFound,
    ensures
        spec_ingest(books, event, now, grace_period_days).0 == books,
        !spec_ingest(books, event, now, grace_period_days).1.store_payment_method,
{
}

/// Only a completed payment touches a subscription: an event whose result
/// code stands for anything else, a cancellation by the payer among them,
/// leaves every subscription as it is.
pub proof fn only_completion_touches_subscriptions(
    books: Books,
    event: WebhookEventView,
    now: Timestamp,
    grace_period_days: u32,
)
    requires
        spec_status_of_code(event.result_code) != PaymentStatus::Completed,
    ensures
        spec_ingest(books, event, now, grace_period_days).0.subscriptions == books.subscriptions,
        spec_ingest(books, event, now, grace_period_days).1.subscription
            == SubscriptionDisposition::NotConcerned,
{
}

/// A notification that is not verified changes nothing: a body that
/// cannot be read, that carries no signature, or whose signature does not
/// match is answered with 400 or 401 and leaves both ledgers as they are.
pub proof fn unverified_webhook_changes_nothing(
    books: Books,
    body: Seq<u8>,
    secret: Seq<char>,
    now: Timestamp,
    grace_period_days: u32,
)
    requires
        spec_verify(body, secret).is_err(),
    ensures
        spec_handle_webhook(books, body, secret, now, grace_period_days).0 == books,
        spec_handle_webhook(books, body, secret, now, grace_period_days).1.status != 200,
        spec_handle_webhook(books, body, secret, now, grace_period_days).1.outcome.is_none(),
        spec_handle_webhook(books, body, secret, now, grace_period_days).1.status == 401
            <==> spec_verify(body, secret) == Err::<Seq<Field>, BillingError>(
            BillingError::SignatureMismatch,
        ),
{
}

} // verus!
