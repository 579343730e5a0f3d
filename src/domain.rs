//! The persisted entities (payment intent, payment attempt), their
//! identifiers, and the tagged update deltas that operations apply to them.
use vstd::prelude::*;
use crate::status::{AttemptStatus, IntentStatus};

verus! {

/// Global payment id: unique within its cell.
#[derive(Clone, Copy, Debug, PartialEq, Eq, Structural)]
pub struct PaymentId {
    pub cell: u64,
    pub value: u64,
}

/// Global attempt id: unique within its cell.
#[derive(Clone, Copy, Debug, PartialEq, Eq, Structural)]
pub struct AttemptId {
    pub cell: u64,
    pub value: u64,
}

#[derive(Clone, Copy, Debug, PartialEq, Eq, Structural)]
pub struct MerchantId(pub u64);

#[derive(Clone, Copy, Debug, PartialEq, Eq, Structural)]
pub struct ProfileId(pub u64);

#[derive(Clone, Copy, Debug, PartialEq, Eq, Structural)]
pub struct OrganizationId(pub u64);

/// Identity of a payment connector.
#[derive(Clone, Copy, Debug, PartialEq, Eq, Structural)]
pub struct ConnectorName(pub u64);

/// Identity of a merchant's account at a connector.
#[derive(Clone, Copy, Debug, PartialEq, Eq, Structural)]
pub struct MerchantConnectorAccountId(pub u64);

/// An amount in the smallest unit of its currency.
#[derive(Clone, Copy, Debug, PartialEq, Eq, Structural)]
pub struct MinorUnit(pub i64);

impl MinorUnit {
    pub fn new(value: i64) -> (r: MinorUnit)
        ensures
            r.0 == value,
    {
        MinorUnit(value)
    }
}

#[derive(Clone, Copy, Debug, PartialEq, Eq, Structural)]
pub enum Currency {
    USD,
    EUR,
    GBP,
    INR,
    JPY,
}

/// Which persistence backend governs a merchant's reads and writes.
#[derive(Clone, Copy, Debug, PartialEq, Eq, Structural)]
pub enum MerchantStorageScheme {
    PostgresOnly,
    RedisKv,
}

#[derive(Clone, Copy, Debug, PartialEq, Eq, Structural)]
pub enum AuthenticationType {
    ThreeDs,
    NoThreeDs,
}

/// Payment method family.
#[derive(Clone, Copy, Debug, PartialEq, Eq, Structural)]
pub enum PaymentMethod {
    Card,
    Wallet,
    BankTransfer,
    BankRedirect,
}

/// Payment method within a family.
#[derive(Clone, Copy, Debug, PartialEq, Eq, Structural)]
pub enum PaymentMethodType {
    Credit,
    Debit,
    ApplePay,
    GooglePay,
    Ach,
    Sepa,
    Ideal,
    Sofort,
}

/// Payment method data supplied with a request.
#[derive(Clone, Copy, Debug, PartialEq, Eq, Structural)]
pub enum PaymentMethodData {
    Card { bin: u32, last4: u16 },
    Wallet,
    BankTransfer,
    BankRedirect,
}

/// Amounts of an intent: what the merchant ordered.
#[derive(Clone, Copy, Debug, PartialEq, Eq, Structural)]
pub struct AmountDetails {
    pub order_amount: MinorUnit,
    pub currency: Currency,
}

/// Amounts of an attempt, tracked apart from the intent's order amount.
#[derive(Clone, Copy, Debug, PartialEq, Eq, Structural)]
pub struct AttemptAmountDetails {
    pub net_amount: MinorUnit,
    pub amount_to_capture: Option<MinorUnit>,
    pub surcharge_amount: Option<MinorUnit>,
    pub tax_on_surcharge: Option<MinorUnit>,
    pub amount_capturable: MinorUnit,
    pub shipping_cost: Option<MinorUnit>,
    pub order_tax_amount: Option<MinorUnit>,
}

/// A merchant's intention to collect money from a customer. `version` counts
/// the committed writes and drives conditional updates.
#[derive(Clone, Copy, Debug, PartialEq, Eq, Structural)]
pub struct PaymentIntent {
    pub id: PaymentId,
    pub merchant_id: MerchantId,
    pub profile_id: ProfileId,
    pub organization_id: OrganizationId,
    pub amount_details: AmountDetails,
    pub authentication_type: AuthenticationType,
    pub status: IntentStatus,
    pub updated_by: MerchantStorageScheme,
    pub version: u64,
}

/// One concrete try to execute an intent against a connector. Times are in
/// seconds since the Unix epoch.
#[derive(Clone, Copy, Debug, PartialEq, Eq, Structural)]
pub struct PaymentAttempt {
    pub id: AttemptId,
    pub payment_id: PaymentId,
    pub merchant_id: MerchantId,
    pub profile_id: ProfileId,
    pub organization_id: OrganizationId,
    pub amount_details: AttemptAmountDetails,
    pub status: AttemptStatus,
    pub connector: Option<ConnectorName>,
    pub merchant_connector_id: Option<MerchantConnectorAccountId>,
    pub authentication_type: AuthenticationType,
    pub payment_method_type: PaymentMethod,
    pub payment_method_subtype: PaymentMethodType,
    pub created_at: i64,
    pub modified_at: i64,
    pub last_synced: Option<i64>,
    pub updated_by: MerchantStorageScheme,
    pub version: u64,
}

/// An attempt is routed on both fields or on neither.
pub open spec fn routing_consistent(a: PaymentAttempt) -> bool {
    a.connector.is_some() == a.merchant_connector_id.is_some()
}

impl PaymentAttempt {
    pub fn has_consistent_routing(&self) -> (r: bool)
        ensures
            r == routing_consistent(*self),
    {
        self.connector.is_some() == self.merchant_connector_id.is_some()
    }
}

/// The change an operation makes to an intent.
#[derive(Clone, Copy, Debug, PartialEq, Eq, Structural)]
pub enum PaymentIntentUpdate {
    ConfirmIntent { status: IntentStatus, updated_by: MerchantStorageScheme },
}

/// The change an operation makes to an attempt.
#[derive(Clone, Copy, Debug, PartialEq, Eq, Structural)]
pub enum PaymentAttemptUpdate {
    ConfirmIntent {
        status: AttemptStatus,
        updated_by: MerchantStorageScheme,
        connector: ConnectorName,
        merchant_connector_id: MerchantConnectorAccountId,
    },
}

/// The status an intent delta moves to.
pub open spec fn intent_update_status(d: PaymentIntentUpdate) -> IntentStatus {
    match d {
        PaymentIntentUpdate::ConfirmIntent { status, .. } => status,
    }
}

/// The status an attempt delta moves to.
pub open spec fn attempt_update_status(d: PaymentAttemptUpdate) -> AttemptStatus {
    match d {
        PaymentAttemptUpdate::ConfirmIntent { status, .. } => status,
    }
}

/// The fields of `i` after `d`, before the version is advanced.
pub open spec fn apply_intent_update(i: PaymentIntent, d: PaymentIntentUpdate) -> PaymentIntent {
    match d {
        PaymentIntentUpdate::ConfirmIntent { status, updated_by } => PaymentIntent {
            status,
            updated_by,
            ..i
        },
    }
}

/// The fields of `a` after `d`, before the version is advanced.
pub open spec fn apply_attempt_update(a: PaymentAttempt, d: PaymentAttemptUpdate) -> PaymentAttempt {
    match d {
        PaymentAttemptUpdate::ConfirmIntent { status, updated_by, connector, merchant_connector_id } =>
            PaymentAttempt {
            status,
            updated_by,
            connector: Some(connector),
            merchant_connector_id: Some(merchant_connector_id),
            ..a
        },
    }
}

impl PaymentIntentUpdate {
    pub fn new_status(&self) -> (r: IntentStatus)
        ensures
            r == intent_update_status(*self),
    {
        match self {
            PaymentIntentUpdate::ConfirmIntent { status, .. } => *status,
        }
    }

    /// Applies the delta to `intent`; the version is left as it was.
    pub fn apply_to(&self, intent: PaymentIntent) -> (r: PaymentIntent)
        ensures
            r == apply_intent_update(intent, *self),
    {
        match self {
            PaymentIntentUpdate::ConfirmIntent { status, updated_by } => PaymentIntent {
                status: *status,
                updated_by: *updated_by,
                ..intent
            },
        }
    }
}

impl PaymentAttemptUpdate {
    pub fn new_status(&self) -> (r: AttemptStatus)
        ensures
            r == attempt_update_status(*self),
    {
        match self {
            PaymentAttemptUpdate::ConfirmIntent { status, .. } => *status,
        }
    }

    /// Applies the delta to `attempt`; the version is left as it was.
    pub fn apply_to(&self, attempt: PaymentAttempt) -> (r: PaymentAttempt)
        ensures
            r == apply_attempt_update(attempt, *self),
            routing_consistent(r),
    {
        match self {
            PaymentAttemptUpdate::ConfirmIntent {
                status,
                updated_by,
                connector,
                merchant_connector_id,
            } => PaymentAttempt {
                status: *status,
                updated_by: *updated_by,
                connector: Some(*connector),
                merchant_connector_id: Some(*merchant_connector_id),
                ..attempt
            },
        }
    }
}

} // verus!
