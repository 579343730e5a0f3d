use router::domain::{
    AttemptAmountDetails, AttemptId, AuthenticationType, ConnectorName,
    MerchantConnectorAccountId, MerchantId, MerchantStorageScheme, MinorUnit, OrganizationId,
    PaymentAttempt, PaymentAttemptUpdate, PaymentId, PaymentMethod, PaymentMethodType, ProfileId,
};
use router::errors::ApiErrorResponse;
use router::payment_methods::{
    payment_method_of, validate_payment_method_type_against_payment_method, PaymentMethodCreate,
};
use router::status::{AttemptStatus, IntentStatus};
use router::store::{InMemoryStore, StorageError};

fn attempt(connector: Option<ConnectorName>, mca: Option<MerchantConnectorAccountId>) -> PaymentAttempt {
    PaymentAttempt {
        id: AttemptId { cell: 1, value: 1 },
        payment_id: PaymentId { cell: 1, value: 1 },
        merchant_id: MerchantId(1),
        profile_id: ProfileId(1),
        organization_id: OrganizationId(1),
        amount_details: AttemptAmountDetails {
            net_amount: MinorUnit(500),
            amount_to_capture: None,
            surcharge_amount: None,
            tax_on_surcharge: None,
            amount_capturable: MinorUnit(0),
            shipping_cost: None,
            order_tax_amount: None,
        },
        status: AttemptStatus::Started,
        connector,
        merchant_connector_id: mca,
        authentication_type: AuthenticationType::ThreeDs,
        payment_method_type: PaymentMethod::Card,
        payment_method_subtype: PaymentMethodType::Debit,
        created_at: 0,
        modified_at: 0,
        last_synced: None,
        updated_by: MerchantStorageScheme::PostgresOnly,
        version: 0,
    }
}

#[test]
fn terminal_intents_never_move() {
    for terminal in [IntentStatus::Succeeded, IntentStatus::Failed, IntentStatus::Cancelled] {
        assert!(terminal.is_terminal());
        for to in [
            IntentStatus::RequiresPaymentMethod,
            IntentStatus::RequiresConfirmation,
            IntentStatus::Processing,
            IntentStatus::RequiresCapture,
            IntentStatus::Succeeded,
        ] {
            assert!(!terminal.can_transition_to(to));
        }
    }
}

#[test]
fn intent_lifecycle_only_advances() {
    assert!(IntentStatus::RequiresConfirmation.can_transition_to(IntentStatus::Processing));
    assert!(IntentStatus::Processing.can_transition_to(IntentStatus::RequiresCapture));
    assert!(IntentStatus::RequiresCapture.can_transition_to(IntentStatus::Succeeded));
    assert!(!IntentStatus::Processing.can_transition_to(IntentStatus::RequiresConfirmation));
    assert!(!IntentStatus::Processing.can_transition_to(IntentStatus::Processing));
    assert_eq!(IntentStatus::Processing.rank(), 2);
}

#[test]
fn attempt_lifecycle_only_advances() {
    assert!(AttemptStatus::Started.can_transition_to(AttemptStatus::Pending));
    assert!(!AttemptStatus::Pending.can_transition_to(AttemptStatus::Started));
    assert!(!AttemptStatus::Charged.can_transition_to(AttemptStatus::Failure));
    assert!(AttemptStatus::Failure.is_terminal());
}

#[test]
fn half_routed_attempt_is_not_stored() {
    let mut store = InMemoryStore::new();
    let half = attempt(Some(ConnectorName(2)), None);
    assert!(!half.has_consistent_routing());
    assert_eq!(store.insert_payment_attempt(half), Err(StorageError::InconsistentRouting));
    let other_half = attempt(None, Some(MerchantConnectorAccountId(2)));
    assert_eq!(store.insert_payment_attempt(other_half), Err(StorageError::InconsistentRouting));
    assert_eq!(store.find_payment_attempt_by_id(half.id), Err(StorageError::ValueNotFound));
}

#[test]
fn attempt_update_sets_both_routing_fields() {
    let mut store = InMemoryStore::new();
    let prior = store.insert_payment_attempt(attempt(None, None)).unwrap();
    assert_eq!(store.insert_payment_attempt(prior), Err(StorageError::DuplicateValue));
    let delta = PaymentAttemptUpdate::ConfirmIntent {
        status: AttemptStatus::Pending,
        updated_by: MerchantStorageScheme::RedisKv,
        connector: ConnectorName(8),
        merchant_connector_id: MerchantConnectorAccountId(80),
    };
    let updated = store.update_payment_attempt(prior, delta).unwrap();
    assert_eq!(updated.connector, Some(ConnectorName(8)));
    assert_eq!(updated.merchant_connector_id, Some(MerchantConnectorAccountId(80)));
    assert_eq!(updated.status, AttemptStatus::Pending);
    assert_eq!(updated.version, 1);
    assert_eq!(store.update_payment_attempt(prior, delta), Err(StorageError::Conflict));
    let back = PaymentAttemptUpdate::ConfirmIntent {
        status: AttemptStatus::Started,
        updated_by: MerchantStorageScheme::RedisKv,
        connector: ConnectorName(8),
        merchant_connector_id: MerchantConnectorAccountId(80),
    };
    assert_eq!(store.update_payment_attempt(updated, back), Err(StorageError::InvalidTransition));
    let missing = PaymentAttempt { id: AttemptId { cell: 1, value: 2 }, ..prior };
    assert_eq!(store.update_payment_attempt(missing, delta), Err(StorageError::ValueNotFound));
}

#[test]
fn payment_method_types_belong_to_their_family() {
    assert_eq!(payment_method_of(PaymentMethodType::ApplePay), PaymentMethod::Wallet);
    assert_eq!(payment_method_of(PaymentMethodType::Sepa), PaymentMethod::BankTransfer);
    assert_eq!(payment_method_of(PaymentMethodType::Ideal), PaymentMethod::BankRedirect);
    assert!(validate_payment_method_type_against_payment_method(
        PaymentMethod::Card,
        PaymentMethodType::Debit
    ));
    assert!(!validate_payment_method_type_against_payment_method(
        PaymentMethod::Card,
        PaymentMethodType::GooglePay
    ));
}

#[test]
fn payment_method_create_validation() {
    let ok = PaymentMethodCreate {
        payment_method: Some(PaymentMethod::Card),
        payment_method_type: Some(PaymentMethodType::Credit),
    };
    assert_eq!(ok.validate(), Ok(()));
    let bad = PaymentMethodCreate {
        payment_method: Some(PaymentMethod::BankTransfer),
        payment_method_type: Some(PaymentMethodType::Credit),
    };
    assert_eq!(bad.validate(), Err(ApiErrorResponse::InvalidRequestData));
    let partial = PaymentMethodCreate { payment_method: None, payment_method_type: Some(PaymentMethodType::Ach) };
    assert_eq!(partial.validate(), Ok(()));
}
