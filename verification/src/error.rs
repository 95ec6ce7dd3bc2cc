//! The ways in which an operation is refused.
//!
//! Every transition of a ledger returns an explicit result. A refusal names
//! its cause; causes fall into five kinds, and only the kind decides how a
//! caller reacts.

use vstd::prelude::*;
use vstd::string::*;

verus! {

/// The five kinds of refusal.
#[derive(Clone, Copy, Debug, PartialEq, Eq, Structural)]
pub enum ErrorKind {
    /// The input was unacceptable; nothing was changed.
    Validation,
    /// No record has the key given; nothing was changed.
    NotFound,
    /// The record is in a state that the operation may not leave.
    InvalidTransition,
    /// The gateway answered with a failure or not at all.
    Gateway,
    /// A webhook did not carry the signature of its content.
    Signature,
}

/// Why an operation was refused.
#[derive(Clone, Copy, Debug, PartialEq, Eq, Structural)]
pub enum BillingError {
    /// An amount below zero.
    NegativeAmount,
    /// An amount that `rust_decimal` cannot hold or compute with.
    AmountOutOfRange,
    /// A date beyond the range of a timestamp, or one that would put the
    /// dates of a subscription out of order.
    DateOutOfRange,
    /// A number of days below zero.
    NegativeDuration,
    /// A required field is absent or empty.
    MissingField,
    /// The name or the address of a user is not acceptable.
    InvalidUser,
    /// A counter is at its largest value.
    CounterExhausted,
    /// Another payment already has the merchant transaction id.
    DuplicateTransactionId,
    /// Another record already has the identifier.
    DuplicateRecord,
    /// No payment has the merchant transaction id.
    PaymentNotFound,
    /// No subscription has the identifier.
    SubscriptionNotFound,
    /// No notification has the identifier.
    NotificationNotFound,
    /// The payment may not move from its status to the one asked for.
    InvalidPaymentTransition,
    /// The subscription is not awaiting its first payment.
    NotPending,
    /// The subscription is not active.
    NotActive,
    /// The subscription is not suspended.
    NotSuspended,
    /// The subscription is neither active nor in its grace period.
    NotActiveOrGrace,
    /// The subscription has ended for good.
    AlreadyTerminal,
    /// The subscription has no end date yet.
    NoEndDate,
    /// The gateway refused the request or its answer could not be read.
    GatewayFailure,
    /// The body of a webhook is not a form.
    MalformedBody,
    /// A webhook carries no signature.
    MissingSignature,
    /// The signature of a webhook is not that of its content.
    SignatureMismatch,
}

impl BillingError {
    /// The kind a refusal belongs to.
    pub open spec fn spec_kind(self) -> ErrorKind {
        match self {
            BillingError::NegativeAmount => ErrorKind::Validation,
            BillingError::AmountOutOfRange => ErrorKind::Validation,
            BillingError::DateOutOfRange => ErrorKind::Validation,
            BillingError::NegativeDuration => ErrorKind::Validation,
            BillingError::MissingField => ErrorKind::Validation,
            BillingError::InvalidUser => ErrorKind::Validation,
            BillingError::CounterExhausted => ErrorKind::Validation,
            BillingError::DuplicateTransactionId => ErrorKind::Validation,
            BillingError::DuplicateRecord => ErrorKind::Validation,
            BillingError::MalformedBody => ErrorKind::Validation,
            BillingError::MissingSignature => ErrorKind::Validation,
            BillingError::PaymentNotFound => ErrorKind::NotFound,
            BillingError::SubscriptionNotFound => ErrorKind::NotFound,
            BillingError::NotificationNotFound => ErrorKind::NotFound,
            BillingError::InvalidPaymentTransition => ErrorKind::InvalidTransition,
            BillingError::NotPending => ErrorKind::InvalidTransition,
            BillingError::NotActive => ErrorKind::InvalidTransition,
            BillingError::NotSuspended => ErrorKind::InvalidTransition,
            BillingError::NotActiveOrGrace => ErrorKind::InvalidTransition,
            BillingError::AlreadyTerminal => ErrorKind::InvalidTransition,
            BillingError::NoEndDate => ErrorKind::InvalidTransition,
            BillingError::GatewayFailure => ErrorKind::Gateway,
            BillingError::SignatureMismatch => ErrorKind::Signature,
        }
    }

    /// What a refusal says to a reader.
    pub open spec fn spec_message(self) -> Seq<char> {
        match self {
            BillingError::NegativeAmount => "Amount must not be negative"@,
            BillingError::AmountOutOfRange => "Amount is out of range"@,
            BillingError::DateOutOfRange => "Date is out of range"@,
            BillingError::NegativeDuration => "Duration must not be negative"@,
            BillingError::MissingField => "A required field is missing"@,
            BillingError::InvalidUser =>
                "Name must be between 2 and 100 characters and email must be valid"@,
            BillingError::CounterExhausted => "Counter cannot be incremented further"@,
            BillingError::DuplicateTransactionId => "Merchant transaction id is already in use"@,
            BillingError::DuplicateRecord => "Record id is already in use"@,
            BillingError::MalformedBody => "Invalid form data"@,
            BillingError::MissingSignature => "Missing signature"@,
            BillingError::PaymentNotFound => "Payment not found"@,
            BillingError::SubscriptionNotFound => "Subscription not found"@,
            BillingError::NotificationNotFound => "Notification not found"@,
            BillingError::InvalidPaymentTransition => "Payment status cannot change this way"@,
            BillingError::NotPending => "Subscription is not pending"@,
            BillingError::NotActive => "Subscription is not active"@,
            BillingError::NotSuspended => "Subscription is not suspended"@,
            BillingError::NotActiveOrGrace => "Subscription is neither active nor in its grace period"@,
            BillingError::AlreadyTerminal => "Subscription has already ended"@,
            BillingError::NoEndDate => "No end date set"@,
            BillingError::GatewayFailure => "Payment gateway request failed"@,
            BillingError::SignatureMismatch => "Invalid signature"@,
        }
    }

    /// The kind a refusal belongs to.
    pub fn kind(&self) -> (k: ErrorKind)
        ensures
            k == self.spec_kind(),
    {
        match self {
            BillingError::NegativeAmount => ErrorKind::Validation,
            BillingError::AmountOutOfRange => ErrorKind::Validation,
            BillingError::DateOutOfRange => ErrorKind::Validation,
            BillingError::NegativeDuration => ErrorKind::Validation,
            BillingError::MissingField => ErrorKind::Validation,
            BillingError::InvalidUser => ErrorKind::Validation,
            BillingError::CounterExhausted => ErrorKind::Validation,
            BillingError::DuplicateTransactionId => ErrorKind::Validation,
            BillingError::DuplicateRecord => ErrorKind::Validation,
            BillingError::MalformedBody => ErrorKind::Validation,
            BillingError::MissingSignature => ErrorKind::Validation,
            BillingError::PaymentNotFound => ErrorKind::NotFound,
            BillingError::SubscriptionNotFound => ErrorKind::NotFound,
            BillingError::NotificationNotFound => ErrorKind::NotFound,
            BillingError::InvalidPaymentTransition => ErrorKind::InvalidTransition,
            BillingError::NotPending => ErrorKind::InvalidTransition,
            BillingError::NotActive => ErrorKind::InvalidTransition,
            BillingError::NotSuspended => ErrorKind::InvalidTransition,
            BillingError::NotActiveOrGrace => ErrorKind::InvalidTransition,
            BillingError::AlreadyTerminal => ErrorKind::InvalidTransition,
            BillingError::NoEndDate => ErrorKind::InvalidTransition,
            BillingError::GatewayFailure => ErrorKind::Gateway,
            BillingError::SignatureMismatch => ErrorKind::Signature,
        }
    }

    /// What a refusal says to a reader.
    pub fn message(&self) -> (s: &'static str)
        ensures
            s@ == self.spec_message(),
    {
        match self {
            BillingError::NegativeAmount => "Amount must not be negative",
            BillingError::AmountOutOfRange => "Amount is out of range",
            BillingError::DateOutOfRange => "Date is out of range",
            BillingError::NegativeDuration => "Duration must not be negative",
            BillingError::MissingField => "A required field is missing",
            BillingError::InvalidUser =>
                "Name must be between 2 and 100 characters and email must be valid",
            BillingError::CounterExhausted => "Counter cannot be incremented further",
            BillingError::DuplicateTransactionId => "Merchant transaction id is already in use",
            BillingError::DuplicateRecord => "Record id is already in use",
            BillingError::MalformedBody => "Invalid form data",
            BillingError::MissingSignature => "Missing signature",
            BillingError::PaymentNotFound => "Payment not found",
            BillingError::SubscriptionNotFound => "Subscription not found",
            BillingError::NotificationNotFound => "Notification not found",
            BillingError::InvalidPaymentTransition => "Payment status cannot change this way",
            BillingError::NotPending => "Subscription is not pending",
            BillingError::NotActive => "Subscription is not active",
            BillingError::NotSuspended => "Subscription is not suspended",
            BillingError::NotActiveOrGrace => "Subscription is neither active nor in its grace period",
            BillingError::AlreadyTerminal => "Subscription has already ended",
            BillingError::NoEndDate => "No end date set",
            BillingError::GatewayFailure => "Payment gateway request failed",
            BillingError::SignatureMismatch => "Invalid signature",
        }
    }

    /// [`BillingError::message`] as an owned string.
    pub fn to_string(&self) -> (s: String)
        ensures
            s@ == self.spec_message(),
    {
        String::from_str(self.message())
    }
}

} // verus!
