//! Configuration of the service.

use vstd::prelude::*;
use vstd::string::*;

verus! {

/// How to reach the gateway and how to be reached by it.
#[derive(Debug)]
pub struct PeachConfig {
    pub auth_service_url: String,
    pub checkout_endpoint: String,
    pub status_endpoint: String,
    pub client_id: String,
    pub client_secret: String,
    pub merchant_id: String,
    pub entity_id: String,
    /// The secret under which the gateway signs its notifications.
    pub webhook_secret: String,
    pub notification_url: String,
    pub shopper_result_url: String,
    pub origin_domain: String,
}

/// How the gateway signs its notifications. Which of the two holds is a
/// matter of the gateway account; it is configured, never guessed.
#[derive(Clone, Copy, Debug, PartialEq, Eq, Structural)]
pub enum SignatureScheme {
    /// The signature is a field of the form and signs the canonical
    /// payload of the other fields.
    SortedFields,
    /// The signature travels beside the body and signs the bytes of the
    /// body as they are.
    RawBody,
}

/// The rules of renewal and of verification.
#[derive(Debug)]
pub struct AppConfig {
    /// Days for which a subscription stays usable after its end date.
    pub grace_period_days: u32,
    pub max_renewal_attempts: u32,
    /// Days before expiry on which to remind the user.
    pub notification_days: Vec<u32>,
    /// Whether a subscription in its grace period is charged automatically
    /// like an active one. Where it is not, such a subscription waits for
    /// a payment by hand.
    pub renew_in_grace: bool,
    /// How the gateway signs its notifications.
    pub signature_scheme: SignatureScheme,
}

/// The whole configuration.
#[derive(Debug)]
pub struct Config {
    pub database_url: String,
    pub peach: PeachConfig,
    pub app: AppConfig,
}

/// The setting of the gateway that is missing.
#[derive(Clone, Copy, Debug, PartialEq, Eq, Structural)]
pub enum ConfigError {
    EmptyClientId,
    EmptyClientSecret,
    EmptyMerchantId,
    EmptyAuthUrl,
    EmptyCheckoutUrl,
    EmptyEntityId,
    EmptyNotificationUrl,
    EmptyShopperResultUrl,
}

impl ConfigError {
    /// What the error says to a reader.
    pub open spec fn spec_message(self) -> Seq<char> {
        match self {
            ConfigError::EmptyClientId => "Client ID is empty"@,
            ConfigError::EmptyClientSecret => "Client Secret is empty"@,
            ConfigError::EmptyMerchantId => "Merchant ID is empty"@,
            ConfigError::EmptyAuthUrl => "V2 Auth URL is empty"@,
            ConfigError::EmptyCheckoutUrl => "V2 Checkout URL is empty"@,
            ConfigError::EmptyEntityId => "V2 Entity ID is empty"@,
            ConfigError::EmptyNotificationUrl => "Notification URL is empty"@,
            ConfigError::EmptyShopperResultUrl => "Shopper Result URL is empty"@,
        }
    }

    /// What the error says to a reader.
    pub fn message(&self) -> (s: &'static str)
        ensures
            s@ == self.spec_message(),
    {
        match self {
            ConfigError::EmptyClientId => "Client ID is empty",
            ConfigError::EmptyClientSecret => "Client Secret is empty",
            ConfigError::EmptyMerchantId => "Merchant ID is empty",
            ConfigError::EmptyAuthUrl => "V2 Auth URL is empty",
            ConfigError::EmptyCheckoutUrl => "V2 Checkout URL is empty",
            ConfigError::EmptyEntityId => "V2 Entity ID is empty",
            ConfigError::EmptyNotificationUrl => "Notification URL is empty",
            ConfigError::EmptyShopperResultUrl => "Shopper Result URL is empty",
        }
    }
}

/// The first required setting of the gateway that is empty, if one is.
pub open spec fn spec_first_missing(c: PeachConfig) -> Option<ConfigError> {
    if c.client_id@.len() == 0 {
        Some(ConfigError::EmptyClientId)
    } else if c.client_secret@.len() == 0 {
        Some(ConfigError::EmptyClientSecret)
    } else if c.merchant_id@.len() == 0 {
        Some(ConfigError::EmptyMerchantId)
    } else if c.auth_service_url@.len() == 0 {
        Some(ConfigError::EmptyAuthUrl)
    } else if c.checkout_endpoint@.len() == 0 {
        Some(ConfigError::EmptyCheckoutUrl)
    } else if c.entity_id@.len() == 0 {
        Some(ConfigError::EmptyEntityId)
    } else if c.notification_url@.len() == 0 {
        Some(ConfigError::EmptyNotificationUrl)
    } else if c.shopper_result_url@.len() == 0 {
        Some(ConfigError::EmptyShopperResultUrl)
    } else {
        None
    }
}

impl PeachConfig {
    /// Checks that every setting a request to the gateway needs is there.
    /// The first one that is empty is reported.
    pub fn validate(&self) -> (r: Result<(), ConfigError>)
        ensures
            match spec_first_missing(*self) {
                Some(e) => r == Err::<(), ConfigError>(e),
                None => r.is_ok(),
            },
    {
        if self.client_id.as_str().is_empty() {
            Err(ConfigError::EmptyClientId)
        } else if self.client_secret.as_str().is_empty() {
            Err(ConfigError::EmptyClientSecret)
        } else if self.merchant_id.as_str().is_empty() {
            Err(ConfigError::EmptyMerchantId)
        } else if self.auth_service_url.as_str().is_empty() {
            Err(ConfigError::EmptyAuthUrl)
        } else if self.checkout_endpoint.as_str().is_empty() {
            Err(ConfigError::EmptyCheckoutUrl)
        } else if self.entity_id.as_str().is_empty() {
            Err(ConfigError::EmptyEntityId)
        } else if self.notification_url.as_str().is_empty() {
            Err(ConfigError::EmptyNotificationUrl)
        } else if self.shopper_result_url.as_str().is_empty() {
            Err(ConfigError::EmptyShopperResultUrl)
        } else {
            Ok(())
        }
    }
}

impl Default for AppConfig {
    /// Seven days of grace, five renewal attempts, reminders seven, three
    /// and one day before expiry, automatic charges in the grace period
    /// too, and notifications that sign the canonical payload of their
    /// form.
    fn default() -> (c: Self)
        ensures
            c.grace_period_days == 7,
            c.max_renewal_attempts == 5,
            c.notification_days@ == seq![7u32, 3u32, 1u32],
            c.renew_in_grace,
            c.signature_scheme == SignatureScheme::SortedFields,
    {
        let mut notification_days: Vec<u32> = Vec::new();
        notification_days.push(7);
        notification_days.push(3);
        notification_days.push(1);
        assert(notification_days@ =~= seq![7u32, 3u32, 1u32]);
        AppConfig {
            grace_period_days: 7,
            max_renewal_attempts: 5,
            notification_days,
            renew_in_grace: true,
            signature_scheme: SignatureScheme::SortedFields,
        }
    }
}

} // verus!
