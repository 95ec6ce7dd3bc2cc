//! Counts of what the service holds.

use vstd::prelude::*;
use crate::payment_ledger::PaymentLedger;
use crate::subscription::SubscriptionStatus;
use crate::subscription_ledger::{spec_count_with_status, SubscriptionLedger};

verus! {

/// How many records the service holds.
#[derive(Clone, Copy, Debug, PartialEq, Eq, Structural)]
pub struct DatabaseStats {
    pub total_users: u64,
    pub total_payments: u64,
    pub total_subscriptions: u64,
    pub active_subscriptions: u64,
}

/// The count that a counting query returned: the first one of its rows, or
/// zero when it returned none.
pub fn extract_count(result: &Vec<u64>) -> (count: u64)
    ensures
        count == if result@.len() > 0 {
            result@[0]
        } else {
            0
        },
{
    if result.len() > 0 {
        result[0]
    } else {
        0
    }
}

/// The counts of the ledgers, with the number of users as given.
pub fn get_statistics(
    total_users: u64,
    payments: &PaymentLedger,
    subscriptions: &SubscriptionLedger,
) -> (stats: DatabaseStats)
    ensures
        stats.total_users == total_users,
        stats.total_payments == payments@.len(),
        stats.total_subscriptions == subscriptions@.len(),
        stats.active_subscriptions == spec_count_with_status(
            subscriptions@,
            SubscriptionStatus::Active,
        ),
{
    DatabaseStats {
        total_users,
        total_payments: payments.len() as u64,
        total_subscriptions: subscriptions.len() as u64,
        active_subscriptions: subscriptions.count_with_status(SubscriptionStatus::Active) as u64,
    }
}

} // verus!
