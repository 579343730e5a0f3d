use router::confirm::{PaymentsConfirmIntentRequest, PaymentsIntentConfirm};
use router::domain::{
    AmountDetails, AttemptId, AuthenticationType, ConnectorName, Currency,
    MerchantConnectorAccountId, MerchantId, MerchantStorageScheme, MinorUnit, OrganizationId,
    PaymentId, PaymentIntent, PaymentIntentUpdate, PaymentMethod, PaymentMethodData,
    PaymentMethodType, ProfileId,
};
use router::errors::{ApiErrorResponse, ErrorCategory, RequiredField};
use router::operation::{
    run_operation, ConnectorChoice, MerchantAccount, RequestContext, Stage,
};
use router::status::{AttemptStatus, IntentStatus};
use router::store::{InMemoryStore, Profile, StorageError};

const PAYMENT: PaymentId = PaymentId { cell: 7, value: 1 };

fn merchant() -> MerchantAccount {
    MerchantAccount { id: MerchantId(11), storage_scheme: MerchantStorageScheme::PostgresOnly }
}

fn intent(status: IntentStatus) -> PaymentIntent {
    PaymentIntent {
        id: PAYMENT,
        merchant_id: MerchantId(11),
        profile_id: ProfileId(21),
        organization_id: OrganizationId(31),
        amount_details: AmountDetails { order_amount: MinorUnit::new(1000), currency: Currency::USD },
        authentication_type: AuthenticationType::NoThreeDs,
        status,
        updated_by: MerchantStorageScheme::PostgresOnly,
        version: 0,
    }
}

fn seeded_store(status: IntentStatus) -> InMemoryStore {
    let mut store = InMemoryStore::new();
    store.insert_payment_intent(intent(status)).unwrap();
    store.insert_business_profile(Profile { id: ProfileId(21), merchant_id: MerchantId(11) }).unwrap();
    store
}

fn card_request() -> PaymentsConfirmIntentRequest {
    PaymentsConfirmIntentRequest {
        payment_method_data: PaymentMethodData::Card { bin: 424242, last4: 4242 },
        payment_method_type: PaymentMethod::Card,
        payment_method_subtype: PaymentMethodType::Credit,
    }
}

fn context(nonce: u64) -> RequestContext {
    RequestContext { cell_id: 7, attempt_nonce: nonce, now: 1_700_000_000 }
}

fn routing() -> ConnectorChoice {
    ConnectorChoice {
        connector: ConnectorName(3),
        merchant_connector_id: MerchantConnectorAccountId(300),
    }
}

#[test]
fn happy_path_confirm_moves_intent_to_processing() {
    let mut store = seeded_store(IntentStatus::RequiresConfirmation);
    let mut trace = Vec::new();
    let data = run_operation(
        &PaymentsIntentConfirm,
        &mut store,
        &context(5),
        PAYMENT,
        &card_request(),
        &merchant(),
        Some(routing()),
        &mut trace,
    )
    .unwrap();
    assert_eq!(data.payment_intent.status, IntentStatus::Processing);
    assert_eq!(data.payment_intent.version, 1);
    assert_eq!(data.payment_attempt.status, AttemptStatus::Pending);
    assert_eq!(data.payment_attempt.amount_details.net_amount, MinorUnit(1000));
    assert_eq!(data.payment_attempt.connector, Some(ConnectorName(3)));
    assert_eq!(data.payment_attempt.merchant_connector_id, Some(MerchantConnectorAccountId(300)));
    assert_eq!(
        trace,
        vec![Stage::ValidateRequest, Stage::GetTrackers, Stage::Domain, Stage::UpdateTrackers]
    );
    assert_eq!(store.find_payment_intent_by_id(PAYMENT).unwrap().status, IntentStatus::Processing);
    let stored = store.find_payment_attempt_by_id(AttemptId { cell: 7, value: 5 }).unwrap();
    assert_eq!(stored.status, AttemptStatus::Pending);
    assert_eq!(stored.payment_id, PAYMENT);
}

#[test]
fn get_trackers_creates_started_unrouted_attempt() {
    let mut store = seeded_store(IntentStatus::RequiresConfirmation);
    let data = PaymentsIntentConfirm
        .get_trackers(&mut store, &context(9), PAYMENT, &card_request(), &merchant())
        .unwrap();
    let attempt = data.payment_attempt;
    assert_eq!(attempt.id, AttemptId { cell: 7, value: 9 });
    assert_eq!(attempt.status, AttemptStatus::Started);
    assert_eq!(attempt.connector, None);
    assert_eq!(attempt.merchant_connector_id, None);
    assert_eq!(attempt.amount_details.net_amount, MinorUnit(1000));
    assert_eq!(attempt.amount_details.amount_capturable, MinorUnit(0));
    assert_eq!(attempt.created_at, 1_700_000_000);
    assert_eq!(attempt.modified_at, 1_700_000_000);
    assert_eq!(attempt.payment_method_subtype, PaymentMethodType::Credit);
    assert_eq!(data.payment_intent, intent(IntentStatus::RequiresConfirmation));
    assert_eq!(data.payment_method_data, Some(card_request().payment_method_data));
    assert_eq!(store.find_payment_attempt_by_id(attempt.id).unwrap(), attempt);
}

#[test]
fn missing_connector_fails_without_writing_intent() {
    let mut store = seeded_store(IntentStatus::RequiresConfirmation);
    let mut trace = Vec::new();
    let err = run_operation(
        &PaymentsIntentConfirm,
        &mut store,
        &context(5),
        PAYMENT,
        &card_request(),
        &merchant(),
        None,
        &mut trace,
    )
    .unwrap_err();
    assert_eq!(err.stage, Stage::UpdateTrackers);
    assert_eq!(err.error, ApiErrorResponse::MissingRequiredField { field: RequiredField::Connector });
    assert_eq!(err.error.category(), ErrorCategory::Internal);
    assert_eq!(
        store.find_payment_intent_by_id(PAYMENT).unwrap(),
        intent(IntentStatus::RequiresConfirmation)
    );
    let orphan = store.find_payment_attempt_by_id(AttemptId { cell: 7, value: 5 }).unwrap();
    assert_eq!(orphan.status, AttemptStatus::Started);
}

#[test]
fn missing_merchant_connector_id_is_refused() {
    let mut store = seeded_store(IntentStatus::RequiresConfirmation);
    let mut data = PaymentsIntentConfirm
        .get_trackers(&mut store, &context(5), PAYMENT, &card_request(), &merchant())
        .unwrap();
    data.payment_attempt.connector = Some(ConnectorName(3));
    let err = PaymentsIntentConfirm
        .update_trackers(&mut store, data, None, MerchantStorageScheme::PostgresOnly)
        .unwrap_err();
    assert_eq!(
        err,
        ApiErrorResponse::MissingRequiredField { field: RequiredField::MerchantConnectorId }
    );
    assert_eq!(store.find_payment_intent_by_id(PAYMENT).unwrap().version, 0);
}

#[test]
fn concurrent_confirms_commit_once_and_keep_both_attempts() {
    let mut store = seeded_store(IntentStatus::RequiresConfirmation);
    let mut first = PaymentsIntentConfirm
        .get_trackers(&mut store, &context(1), PAYMENT, &card_request(), &merchant())
        .unwrap();
    let mut second = PaymentsIntentConfirm
        .get_trackers(&mut store, &context(2), PAYMENT, &card_request(), &merchant())
        .unwrap();
    assert_eq!(first.payment_intent, second.payment_intent);
    for data in [&mut first, &mut second] {
        data.payment_attempt.connector = Some(ConnectorName(3));
        data.payment_attempt.merchant_connector_id = Some(MerchantConnectorAccountId(300));
    }
    let scheme = MerchantStorageScheme::RedisKv;
    let won = PaymentsIntentConfirm.update_trackers(&mut store, first, None, scheme);
    let lost = PaymentsIntentConfirm.update_trackers(&mut store, second, None, scheme);
    assert!(won.is_ok());
    assert_eq!(won.unwrap().payment_intent.updated_by, MerchantStorageScheme::RedisKv);
    assert_eq!(lost, Err(ApiErrorResponse::Conflict));
    assert_eq!(ApiErrorResponse::Conflict.category(), ErrorCategory::Conflict);
    let loser = store.find_payment_attempt_by_id(AttemptId { cell: 7, value: 2 }).unwrap();
    assert_eq!(loser.status, AttemptStatus::Started);
    let winner = store.find_payment_attempt_by_id(AttemptId { cell: 7, value: 1 }).unwrap();
    assert_eq!(winner.status, AttemptStatus::Pending);
}

#[test]
fn same_delta_on_same_prior_commits_once() {
    let mut store = seeded_store(IntentStatus::RequiresConfirmation);
    let copy_a = store.find_payment_intent_by_id(PAYMENT).unwrap();
    let copy_b = store.find_payment_intent_by_id(PAYMENT).unwrap();
    let delta = PaymentIntentUpdate::ConfirmIntent {
        status: IntentStatus::Processing,
        updated_by: MerchantStorageScheme::PostgresOnly,
    };
    let first = store.update_payment_intent(copy_a, delta);
    let second = store.update_payment_intent(copy_b, delta);
    assert_eq!(first.unwrap().version, 1);
    assert_eq!(second, Err(StorageError::Conflict));
}

#[test]
fn failed_validation_runs_no_later_stage() {
    let mut store = seeded_store(IntentStatus::RequiresConfirmation);
    let mut trace = Vec::new();
    let request = PaymentsConfirmIntentRequest {
        payment_method_type: PaymentMethod::Wallet,
        ..card_request()
    };
    let err = run_operation(
        &PaymentsIntentConfirm,
        &mut store,
        &context(5),
        PAYMENT,
        &request,
        &merchant(),
        Some(routing()),
        &mut trace,
    )
    .unwrap_err();
    assert_eq!(err.stage, Stage::ValidateRequest);
    assert_eq!(err.error, ApiErrorResponse::InvalidRequestData);
    assert_eq!(trace, vec![Stage::ValidateRequest]);
    assert_eq!(
        store.find_payment_attempt_by_id(AttemptId { cell: 7, value: 5 }),
        Err(StorageError::ValueNotFound)
    );
}

#[test]
fn validate_request_passes_storage_scheme_through() {
    let account = MerchantAccount { id: MerchantId(12), storage_scheme: MerchantStorageScheme::RedisKv };
    let v = PaymentsIntentConfirm.validate_request(&card_request(), &account).unwrap();
    assert_eq!(v.merchant_id, MerchantId(12));
    assert_eq!(v.storage_scheme, MerchantStorageScheme::RedisKv);
    assert!(!v.requeue);
}

#[test]
fn unknown_intent_is_not_found() {
    let mut store = seeded_store(IntentStatus::RequiresConfirmation);
    let mut trace = Vec::new();
    let err = run_operation(
        &PaymentsIntentConfirm,
        &mut store,
        &context(5),
        PaymentId { cell: 7, value: 99 },
        &card_request(),
        &merchant(),
        Some(routing()),
        &mut trace,
    )
    .unwrap_err();
    assert_eq!(err.stage, Stage::GetTrackers);
    assert_eq!(err.error, ApiErrorResponse::PaymentNotFound);
    assert_eq!(err.error.category(), ErrorCategory::NotFound);
    assert_eq!(trace, vec![Stage::ValidateRequest, Stage::GetTrackers]);
}

#[test]
fn missing_profile_is_not_found_after_attempt_is_stored() {
    let mut store = InMemoryStore::new();
    store.insert_payment_intent(intent(IntentStatus::RequiresConfirmation)).unwrap();
    let err = PaymentsIntentConfirm
        .get_trackers(&mut store, &context(5), PAYMENT, &card_request(), &merchant())
        .unwrap_err();
    assert_eq!(err, ApiErrorResponse::ProfileNotFound { id: ProfileId(21) });
    assert!(store.find_payment_attempt_by_id(AttemptId { cell: 7, value: 5 }).is_ok());
}

#[test]
fn reused_attempt_id_is_an_internal_error() {
    let mut store = seeded_store(IntentStatus::RequiresConfirmation);
    PaymentsIntentConfirm
        .get_trackers(&mut store, &context(5), PAYMENT, &card_request(), &merchant())
        .unwrap();
    let err = PaymentsIntentConfirm
        .get_trackers(&mut store, &context(5), PAYMENT, &card_request(), &merchant())
        .unwrap_err();
    assert_eq!(err, ApiErrorResponse::InternalServerError);
}

#[test]
fn confirm_does_not_select_a_connector() {
    let err = PaymentsIntentConfirm
        .get_connector(&merchant(), &card_request(), &intent(IntentStatus::RequiresConfirmation))
        .unwrap_err();
    assert_eq!(err, ApiErrorResponse::NotImplemented);
}

#[test]
fn confirm_of_processing_intent_is_refused() {
    let mut store = seeded_store(IntentStatus::Processing);
    let mut trace = Vec::new();
    let err = run_operation(
        &PaymentsIntentConfirm,
        &mut store,
        &context(5),
        PAYMENT,
        &card_request(),
        &merchant(),
        Some(routing()),
        &mut trace,
    )
    .unwrap_err();
    assert_eq!(err.error, ApiErrorResponse::InvalidStatusTransition);
    assert_eq!(err.error.category(), ErrorCategory::Validation);
    assert_eq!(store.find_payment_intent_by_id(PAYMENT).unwrap().status, IntentStatus::Processing);
}

#[test]
fn confirm_from_requires_payment_method_is_allowed() {
    let mut store = seeded_store(IntentStatus::RequiresPaymentMethod);
    let mut trace = Vec::new();
    let data = run_operation(
        &PaymentsIntentConfirm,
        &mut store,
        &context(5),
        PAYMENT,
        &card_request(),
        &merchant(),
        Some(routing()),
        &mut trace,
    )
    .unwrap();
    assert_eq!(data.payment_intent.status, IntentStatus::Processing);
}

#[test]
fn exhausted_version_counter_refuses_further_writes() {
    let mut store = InMemoryStore::new();
    let worn = PaymentIntent { version: u64::MAX, ..intent(IntentStatus::RequiresConfirmation) };
    store.insert_payment_intent(worn).unwrap();
    assert_eq!(store.insert_payment_intent(worn), Err(StorageError::DuplicateValue));
    let delta = PaymentIntentUpdate::ConfirmIntent {
        status: IntentStatus::Processing,
        updated_by: MerchantStorageScheme::PostgresOnly,
    };
    assert_eq!(store.update_payment_intent(worn, delta), Err(StorageError::Conflict));
    let gone = PaymentIntent { id: PaymentId { cell: 8, value: 1 }, ..worn };
    assert_eq!(store.update_payment_intent(gone, delta), Err(StorageError::ValueNotFound));
}

#[test]
fn refused_attempt_update_leaves_intent_unwritten() {
    let mut store = seeded_store(IntentStatus::RequiresConfirmation);
    let mut data = PaymentsIntentConfirm
        .get_trackers(&mut store, &context(5), PAYMENT, &card_request(), &merchant())
        .unwrap();
    data.payment_attempt.connector = Some(ConnectorName(3));
    data.payment_attempt.merchant_connector_id = Some(MerchantConnectorAccountId(300));
    data.payment_attempt.version = 4;
    let err = PaymentsIntentConfirm
        .update_trackers(&mut store, data, None, MerchantStorageScheme::PostgresOnly)
        .unwrap_err();
    assert_eq!(err, ApiErrorResponse::Conflict);
    assert_eq!(
        store.find_payment_intent_by_id(PAYMENT).unwrap(),
        intent(IntentStatus::RequiresConfirmation)
    );
    let attempt = store.find_payment_attempt_by_id(AttemptId { cell: 7, value: 5 }).unwrap();
    assert_eq!(attempt.status, AttemptStatus::Started);
    assert_eq!(attempt.version, 0);
}

#[test]
fn terminal_intent_is_not_confirmed() {
    let mut store = seeded_store(IntentStatus::Succeeded);
    let mut trace = Vec::new();
    let err = run_operation(
        &PaymentsIntentConfirm,
        &mut store,
        &context(5),
        PAYMENT,
        &card_request(),
        &merchant(),
        Some(routing()),
        &mut trace,
    )
    .unwrap_err();
    assert_eq!(err.stage, Stage::UpdateTrackers);
    assert_eq!(err.error, ApiErrorResponse::InvalidStatusTransition);
    assert_eq!(store.find_payment_intent_by_id(PAYMENT).unwrap().status, IntentStatus::Succeeded);
}
