//! Starting a payment and following it up.
//!
//! A payment is started for a pending subscription: it is recorded, a
//! checkout is created at the gateway, and the id of the checkout is
//! attached to the record. When the notification of the gateway stays
//! away, the status of the checkout is polled, and the answer is ingested
//! exactly as a notification would be.

use vstd::prelude::*;
use vstd::string::*;
use crate::common::{opt_str_view, opt_view};
use crate::error::BillingError;
use crate::gateway::{CheckoutAnswer, PeachPaymentService};
use crate::ids::{merchant_transaction_id_from, random_u128, simple_hex, txn_prefix, RecordId};
use crate::payment::{InitiatePaymentRequest, Payment, PaymentView};
use crate::payment_ledger::{
    creation_outcome, has_txn, spec_attach_checkout, spec_create_payment, txn_index, PaymentLedger,
};
use crate::search::{first_index, lemma_first_index_is};
use crate::subscription::{SubscriptionStatus, SubscriptionView};
use crate::subscription_ledger::{sub_index, SubscriptionLedger};
use crate::text::{is_prefix, segment_end, spec_segment_len, str_equal, str_starts_with};
use crate::time::{current_time, Timestamp};
use crate::webhook::{ingest_event, spec_ingest, Books, IngestOutcome, WebhookEvent, WebhookEventView};

verus! {

/// How to embed a checkout in a page.
#[derive(Debug)]
pub struct EmbedConfig {
    pub entity_id: String,
    pub checkout_id: String,
    pub script_url: String,
}

/// What the caller of a started payment gets back.
#[derive(Debug)]
pub struct InitiatePaymentResponse {
    pub payment_id: RecordId,
    pub merchant_transaction_id: String,
    pub checkout_id: String,
    pub checkout_url: Option<String>,
    pub embed_config: Option<EmbedConfig>,
    /// Where the gateway wants the payer to be sent, if it said so.
    pub redirect_url: Option<String>,
}

/// The query of the gateway's callback to the browser.
#[derive(Debug)]
pub struct PaymentCallbackQuery {
    pub resource_path: Option<String>,
}

/// The payment ledger after a payment was started for a subscription: the
/// subscription must exist and be pending, and then the payment is created
/// as [`spec_create_payment`] says.
pub open spec fn spec_begin_payment(
    subs: Seq<SubscriptionView>,
    payments: Seq<PaymentView>,
    request: InitiatePaymentRequest,
    txn: Seq<char>,
    id: RecordId,
    now: Timestamp,
) -> Result<Seq<PaymentView>, BillingError> {
    let i = sub_index(subs, request.subscription_id);
    if i >= subs.len() {
        Err(BillingError::SubscriptionNotFound)
    } else if subs[i].status != SubscriptionStatus::Pending {
        Err(BillingError::NotPending)
    } else {
        spec_create_payment(payments, request, txn, id, now)
    }
}

/// Starts a payment at `now` under the ids given; see
/// [`spec_begin_payment`].
pub fn begin_payment_at(
    subscriptions: &SubscriptionLedger,
    payments: &mut PaymentLedger,
    request: InitiatePaymentRequest,
    merchant_transaction_id: String,
    id: RecordId,
    now: Timestamp,
) -> (r: Result<Payment, BillingError>)
    ensures
        creation_outcome(
            spec_begin_payment(
                subscriptions@,
                old(payments)@,
                request,
                merchant_transaction_id@,
                id,
                now,
            ),
            r,
            old(payments)@,
            final(payments)@,
        ),
        old(payments).wf() ==> final(payments).wf(),
{
    match subscriptions.get_subscription(request.subscription_id) {
        None => {
            return Err(BillingError::SubscriptionNotFound);
        },
        Some(subscription) => {
            if subscription.status != SubscriptionStatus::Pending {
                return Err(BillingError::NotPending);
            }
        },
    }
    payments.create_payment_at(request, merchant_transaction_id, id, now)
}

/// Starts a payment now, under a fresh merchant transaction id and a fresh
/// record id.
pub fn initiate_payment(
    subscriptions: &SubscriptionLedger,
    payments: &mut PaymentLedger,
    request: InitiatePaymentRequest,
) -> (r: Result<Payment, BillingError>)
    ensures
        exists|suffix: u128, id: RecordId, now: Timestamp|
            creation_outcome(
                #[trigger] spec_begin_payment(
                    subscriptions@,
                    old(payments)@,
                    request,
                    txn_prefix() + simple_hex(suffix),
                    id,
                    now,
                ),
                r,
                old(payments)@,
                final(payments)@,
            ),
        old(payments).wf() ==> final(payments).wf(),
{
    let suffix = random_u128();
    let id = RecordId::generate();
    let now = current_time();
    begin_payment_at(
        subscriptions,
        payments,
        request,
        merchant_transaction_id_from(suffix),
        id,
        now,
    )
}

/// The payment ledger after the gateway answered the creation of the
/// checkout of the payment `txn`: an answer with a checkout id has the id
/// attached to the payment, if the payment is there; an answer without
/// one changes nothing.
pub open spec fn spec_complete_checkout(
    payments: Seq<PaymentView>,
    txn: Seq<char>,
    checkout_id: Option<Seq<char>>,
    now: Timestamp,
) -> Seq<PaymentView> {
    match checkout_id {
        Some(id) => match spec_attach_checkout(payments, txn, id, now) {
            Ok(v) => v,
            Err(_) => payments,
        },
        None => payments,
    }
}

/// Records the gateway's answer to the creation of a checkout and builds
/// the answer to the caller. An answer of the gateway that names no
/// checkout is a failure of the gateway.
pub fn complete_checkout(
    service: &PeachPaymentService,
    payments: &mut PaymentLedger,
    payment_id: RecordId,
    merchant_transaction_id: &str,
    answer: &CheckoutAnswer,
    now: Timestamp,
) -> (r: Result<InitiatePaymentResponse, BillingError>)
    ensures
        final(payments)@ == spec_complete_checkout(
            old(payments)@,
            merchant_transaction_id@,
            answer.spec_checkout_id(),
            now,
        ),
        old(payments).wf() ==> final(payments).wf(),
        answer.spec_checkout_id().is_none() ==> r.is_err() && r.unwrap_err()
            == BillingError::GatewayFailure,
        answer.spec_checkout_id().is_some() ==> r.is_ok() && {
            let response = r.unwrap();
            let checkout_id = answer.spec_checkout_id().unwrap();
            &&& response.payment_id == payment_id
            &&& response.merchant_transaction_id@ == merchant_transaction_id@
            &&& response.checkout_id@ == checkout_id
            &&& opt_view(response.checkout_url) == Some(
                service.spec_config().checkout_endpoint@ + "/v2/checkout/"@ + checkout_id,
            )
            &&& response.embed_config.is_some()
            &&& response.embed_config.unwrap().entity_id@ == service.spec_config().entity_id@
            &&& response.embed_config.unwrap().checkout_id@ == checkout_id
            &&& response.embed_config.unwrap().script_url@
                == "https://sandbox-checkout.peachpayments.com/js/checkout.js"@
            &&& opt_view(response.redirect_url) == opt_view(answer.redirect_url)
        },
{
    let checkout_id = match answer.checkout_id() {
        Some(id) => id,
        None => {
            return Err(BillingError::GatewayFailure);
        },
    };
    let _ = payments.attach_checkout(merchant_transaction_id, checkout_id.clone(), now);
    let redirect_url = match &answer.redirect_url {
        Some(url) => Some(url.clone()),
        None => None,
    };
    Ok(
        InitiatePaymentResponse {
            payment_id,
            merchant_transaction_id: String::from_str(merchant_transaction_id),
            checkout_id: checkout_id.clone(),
            checkout_url: Some(service.checkout_page_url(checkout_id.as_str())),
            embed_config: Some(
                EmbedConfig {
                    entity_id: service.config().entity_id.clone(),
                    checkout_id: checkout_id.clone(),
                    script_url: String::from_str(
                        "https://sandbox-checkout.peachpayments.com/js/checkout.js",
                    ),
                },
            ),
            redirect_url,
        },
    )
}

/// The checkout to ask the gateway about when the status of the payment
/// `txn` is polled: `Ok(None)` for a payment that has no checkout yet,
/// whose status is then reported as it stands.
pub fn checkout_to_poll(payments: &PaymentLedger, txn: &str) -> (r: Result<Option<String>, BillingError>)
    ensures
        !has_txn(payments@, txn@) ==> r.is_err() && r.unwrap_err() == BillingError::PaymentNotFound,
        has_txn(payments@, txn@) ==> r.is_ok() && opt_view(r.unwrap()) == payments@[txn_index(
            payments@,
            txn@,
        )].peach_checkout_id,
{
    match payments.get_payment_by_merchant_id(txn) {
        None => Err(BillingError::PaymentNotFound),
        Some(payment) => match &payment.peach_checkout_id {
            Some(id) => Ok(Some(id.clone())),
            None => Ok(None),
        },
    }
}

/// What the gateway reports of a checkout that is polled.
#[derive(Debug)]
pub struct StatusAnswer {
    pub result_code: String,
    pub payment_brand: Option<String>,
    pub registration_id: Option<String>,
    pub payment_id: Option<String>,
}

/// The event that a polled status stands for.
pub open spec fn spec_polled_event(txn: Seq<char>, answer: StatusAnswer) -> WebhookEventView {
    WebhookEventView {
        result_code: answer.result_code@,
        merchant_transaction_id: txn,
        subscription_id: None,
        registration_id: opt_view(answer.registration_id),
        payment_id: opt_view(answer.payment_id),
        payment_brand: opt_view(answer.payment_brand),
    }
}

/// Ingests at `now` the status that the gateway reports of the checkout of
/// the payment `txn`. Polling and notification share one path: the answer
/// is ingested as the event [`spec_polled_event`], so both arrive at the
/// same state, whichever comes first.
pub fn reconcile_poll(
    payments: &mut PaymentLedger,
    subscriptions: &mut SubscriptionLedger,
    txn: &str,
    answer: StatusAnswer,
    now: Timestamp,
    grace_period_days: u32,
) -> (outcome: IngestOutcome)
    ensures
        (Books { payments: final(payments)@, subscriptions: final(subscriptions)@ }, outcome)
            == spec_ingest(
            Books { payments: old(payments)@, subscriptions: old(subscriptions)@ },
            spec_polled_event(txn@, answer),
            now,
            grace_period_days,
        ),
        old(payments).wf() ==> final(payments).wf(),
        old(subscriptions).wf() ==> final(subscriptions).wf(),
{
    let event = WebhookEvent {
        result_code: answer.result_code,
        merchant_transaction_id: String::from_str(txn),
        subscription_id: None,
        registration_id: answer.registration_id,
        payment_id: answer.payment_id,
        payment_brand: answer.payment_brand,
    };
    ingest_event(payments, subscriptions, &event, now, grace_period_days)
}

/// The number of slashes a path begins with.
pub open spec fn spec_leading_slashes(path: Seq<char>) -> int {
    first_index(path, |c: char| c != '/')
}

/// The id of the checkout that a resource path names. Leading slashes
/// aside, the path must begin with the segment `checkouts` and a slash;
/// the id is the segment that follows.
pub open spec fn spec_checkout_id_from_path(path: Seq<char>) -> Option<Seq<char>> {
    let rest = path.skip(spec_leading_slashes(path));
    let first = spec_segment_len(rest, '/');
    if rest.take(first) == "checkouts"@ && first < rest.len() {
        let tail = rest.skip(first + 1);
        Some(tail.take(spec_segment_len(tail, '/')))
    } else {
        None
    }
}

/// The id of the checkout that a resource path names; see
/// [`spec_checkout_id_from_path`].
pub fn checkout_id_from_resource_path(path: &str) -> (r: Option<String>)
    ensures
        opt_view(r) == spec_checkout_id_from_path(path@),
{
    let n = path.unicode_len();
    let mut start: usize = 0;
    while start < n && path.get_char(start) == '/'
        invariant
            n == path@.len(),
            start <= n,
            forall|k: int| 0 <= k < start ==> path@[k] == '/',
        decreases n - start,
    {
        start += 1;
    }
    proof {
        assert forall|j: int| 0 <= j < start implies !(|c: char| c != '/')(#[trigger] path@[j]) by {}
        lemma_first_index_is(path@, |c: char| c != '/', start as int);
    }
    let first_end = segment_end(path, start, '/');
    let ghost rest = path@.skip(start as int);
    proof {
        assert(rest.take(first_end - start) =~= path@.subrange(start as int, first_end as int));
    }
    if !str_equal(path.substring_char(start, first_end), "checkouts") || first_end >= n {
        return None;
    }
    let id_start = first_end + 1;
    let id_end = segment_end(path, id_start, '/');
    proof {
        let tail = rest.skip(first_end - start + 1);
        assert(tail =~= path@.skip(id_start as int));
        assert(tail.take(id_end - id_start) =~= path@.subrange(id_start as int, id_end as int));
    }
    Some(String::from_str(path.substring_char(id_start, id_end)))
}

/// Whether a result code reports success to the payer: it begins `000.`.
pub fn callback_succeeded(result_code: Option<&str>) -> (b: bool)
    ensures
        b == (opt_str_view(result_code).is_some() && is_prefix(
            "000."@,
            opt_str_view(result_code).unwrap(),
        )),
{
    match result_code {
        Some(code) => str_starts_with(code, "000."),
        None => false,
    }
}

/// Where to send the browser after the gateway's callback, when the status
/// of the checkout could be read.
pub fn callback_redirect_location(merchant_transaction_id: Option<&str>, resource_path: &str) -> (location:
    String)
    ensures
        location@ == "/payment-result.html?id="@ + match merchant_transaction_id {
            Some(id) => id@,
            None => "unknown"@,
        } + "&resourcePath="@ + resource_path@,
{
    let mut location = String::from_str("/payment-result.html?id=");
    match merchant_transaction_id {
        Some(id) => location.append(id),
        None => location.append("unknown"),
    }
    location.append("&resourcePath=");
    location.append(resource_path);
    location
}

/// Where to send the browser after the gateway's callback, when the status
/// of the checkout could not be read.
pub fn callback_error_location() -> (location: &'static str)
    ensures
        location@ == "/payment-result.html?status=error"@,
{
    "/payment-result.html?status=error"
}

impl PaymentCallbackQuery {
    /// The id of the checkout that the query names, if it names one.
    pub fn checkout_id(&self) -> (r: Option<String>)
        ensures
            opt_view(r) == match self.resource_path {
                Some(path) => spec_checkout_id_from_path(path@),
                None => None,
            },
    {
        match &self.resource_path {
            Some(path) => checkout_id_from_resource_path(path.as_str()),
            None => None,
        }
    }
}

} // verus!
