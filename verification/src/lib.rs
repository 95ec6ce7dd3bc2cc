//! Reconciliation core of a recurring-billing service: payment and
//! subscription state machines, webhook verification and ingestion, and
//! the renewal scheduler, with every transition stated as a contract.

pub mod checkout;
pub mod common;
pub mod config;
pub mod error;
pub mod form;
pub mod gateway;
pub mod ids;
pub mod money;
pub mod notification;
pub mod payment;
pub mod payment_ledger;
pub mod recurring;
pub mod renewal;
pub mod search;
pub mod signature;
pub mod stats;
pub mod subscription;
pub mod subscription_ledger;
pub mod text;
pub mod time;
pub mod user;
pub mod webhook;
