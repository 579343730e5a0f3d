//! The confirm-intent operation: it creates a fresh attempt for an intent and
//! moves the intent to `Processing` and the attempt to `Pending`.
use vstd::prelude::*;
use crate::domain::{
    AttemptAmountDetails, AttemptId, ConnectorName, MerchantConnectorAccountId,
    MerchantStorageScheme, MinorUnit, PaymentAttempt, PaymentAttemptUpdate, PaymentId,
    PaymentIntent, PaymentIntentUpdate, PaymentMethod, PaymentMethodData, PaymentMethodType,
};
use crate::errors::{update_error, ApiErrorResponse, RequiredField};
use crate::operation::{
    pipeline_outcome, with_routing, ConnectorChoice, Customer, MerchantAccount, Operation, PaymentConfirmData, RequestContext,
    ValidateResult,
};
use crate::payment_methods::{family_of, validate_payment_method_type_against_payment_method};
use crate::status::{intent_is_terminal, AttemptStatus, IntentStatus};
use crate::store::{lemma_update_commits_once, store_advanced, InMemoryStore, StoreView};

verus! {

/// A request to confirm an intent with a payment method.
#[derive(Clone, Copy, Debug, PartialEq, Eq, Structural)]
pub struct PaymentsConfirmIntentRequest {
    pub payment_method_data: PaymentMethodData,
    pub payment_method_type: PaymentMethod,
    pub payment_method_subtype: PaymentMethodType,
}

/// The attempt that confirming `intent` creates: fresh, `Started`, unrouted,
/// for the intent's whole order amount.
pub open spec fn confirm_attempt_model(
    request: PaymentsConfirmIntentRequest,
    context: RequestContext,
    intent: PaymentIntent,
    storage_scheme: MerchantStorageScheme,
) -> PaymentAttempt {
    PaymentAttempt {
        id: AttemptId { cell: context.cell_id, value: context.attempt_nonce },
        payment_id: intent.id,
        merchant_id: intent.merchant_id,
        profile_id: intent.profile_id,
        organization_id: intent.organization_id,
        amount_details: AttemptAmountDetails {
            net_amount: intent.amount_details.order_amount,
            amount_to_capture: None,
            surcharge_amount: None,
            tax_on_surcharge: None,
            amount_capturable: MinorUnit(0),
            shipping_cost: None,
            order_tax_amount: None,
        },
        status: AttemptStatus::Started,
        connector: None,
        merchant_connector_id: None,
        authentication_type: intent.authentication_type,
        payment_method_type: request.payment_method_type,
        payment_method_subtype: request.payment_method_subtype,
        created_at: context.now,
        modified_at: context.now,
        last_synced: None,
        updated_by: storage_scheme,
        version: 0,
    }
}

pub open spec fn confirm_intent_update(storage_scheme: MerchantStorageScheme) -> PaymentIntentUpdate {
    PaymentIntentUpdate::ConfirmIntent { status: IntentStatus::Processing, updated_by: storage_scheme }
}

pub open spec fn confirm_attempt_update(
    storage_scheme: MerchantStorageScheme,
    connector: ConnectorName,
    merchant_connector_id: MerchantConnectorAccountId,
) -> PaymentAttemptUpdate {
    PaymentAttemptUpdate::ConfirmIntent {
        status: AttemptStatus::Pending,
        updated_by: storage_scheme,
        connector,
        merchant_connector_id,
    }
}

impl PaymentsConfirmIntentRequest {
    pub fn create_domain_model_from_request(
        &self,
        context: &RequestContext,
        payment_intent: &PaymentIntent,
        storage_scheme: MerchantStorageScheme,
    ) -> (r: PaymentAttempt)
        ensures
            r == confirm_attempt_model(*self, *context, *payment_intent, storage_scheme),
    {
        let attempt_amount_details = AttemptAmountDetails {
            net_amount: payment_intent.amount_details.order_amount,
            amount_to_capture: None,
            surcharge_amount: None,
            tax_on_surcharge: None,
            amount_capturable: MinorUnit::new(0),
            shipping_cost: None,
            order_tax_amount: None,
        };
        PaymentAttempt {
            id: AttemptId { cell: context.cell_id, value: context.attempt_nonce },
            payment_id: payment_intent.id,
            merchant_id: payment_intent.merchant_id,
            profile_id: payment_intent.profile_id,
            organization_id: payment_intent.organization_id,
            amount_details: attempt_amount_details,
            status: AttemptStatus::Started,
            connector: None,
            merchant_connector_id: None,
            authentication_type: payment_intent.authentication_type,
            payment_method_type: self.payment_method_type,
            payment_method_subtype: self.payment_method_subtype,
            created_at: context.now,
            modified_at: context.now,
            last_synced: None,
            updated_by: storage_scheme,
            version: 0,
        }
    }
}

/// The confirm-intent operation.
#[derive(Clone, Copy, Debug, PartialEq, Eq, Structural)]
pub struct PaymentsIntentConfirm;

/// The outcome of validating a confirm request.
pub open spec fn confirm_validate_outcome(
    request: PaymentsConfirmIntentRequest,
    merchant_account: MerchantAccount,
) -> Result<ValidateResult, ApiErrorResponse> {
    if family_of(request.payment_method_subtype) == request.payment_method_type {
        Ok(
            ValidateResult {
                merchant_id: merchant_account.id,
                storage_scheme: merchant_account.storage_scheme,
                requeue: false,
            },
        )
    } else {
        Err(ApiErrorResponse::InvalidRequestData)
    }
}

/// The outcome of the confirm fetch stage on store `s`, and the store after it.
pub open spec fn confirm_trackers_outcome(
    s: StoreView,
    context: RequestContext,
    payment_id: PaymentId,
    request: PaymentsConfirmIntentRequest,
    storage_scheme: MerchantStorageScheme,
) -> (Result<PaymentConfirmData, ApiErrorResponse>, StoreView) {
    if !s.has_intent(payment_id) {
        (Err(ApiErrorResponse::PaymentNotFound), s)
    } else {
        let intent = s.intent(payment_id);
        let attempt = confirm_attempt_model(request, context, intent, storage_scheme);
        if s.has_attempt(attempt.id) {
            (Err(ApiErrorResponse::InternalServerError), s)
        } else {
            let stored = StoreView { attempts: s.attempts.push(attempt), ..s };
            if s.has_profile(intent.profile_id) {
                (
                    Ok(
                        PaymentConfirmData {
                            payment_intent: intent,
                            payment_attempt: attempt,
                            payment_method_data: Some(request.payment_method_data),
                        },
                    ),
                    stored,
                )
            } else {
                (Err(ApiErrorResponse::ProfileNotFound { id: intent.profile_id }), stored)
            }
        }
    }
}

/// The outcome of the confirm persist stage on store `s`, and the store after it.
pub open spec fn confirm_update_outcome(
    s: StoreView,
    payment_data: PaymentConfirmData,
    storage_scheme: MerchantStorageScheme,
) -> (Result<PaymentConfirmData, ApiErrorResponse>, StoreView) {
    match payment_data.payment_attempt.connector {
        None => (
            Err(ApiErrorResponse::MissingRequiredField { field: RequiredField::Connector }),
            s,
        ),
        Some(c) => match payment_data.payment_attempt.merchant_connector_id {
            None => (
                Err(
                    ApiErrorResponse::MissingRequiredField {
                        field: RequiredField::MerchantConnectorId,
                    },
                ),
                s,
            ),
            Some(m) => match s.joint_update_outcome(
                payment_data.payment_intent,
                confirm_intent_update(storage_scheme),
                payment_data.payment_attempt,
                confirm_attempt_update(storage_scheme, c, m),
            ) {
                Err(e) => (Err(update_error(e)), s),
                Ok((intent, attempt)) => (
                    Ok(
                        PaymentConfirmData {
                            payment_intent: intent,
                            payment_attempt: attempt,
                            ..payment_data
                        },
                    ),
                    s.with_intent(intent).with_attempt(attempt),
                ),
            },
        },
    }
}

/// Two confirm runs that read the same intent version: once the first has
/// persisted, the second is refused as a conflict and writes nothing.
pub proof fn lemma_confirm_persist_commits_once(
    s: StoreView,
    first: PaymentConfirmData,
    second: PaymentConfirmData,
    storage_scheme: MerchantStorageScheme,
)
    requires
        s.wf(),
        first.payment_intent == second.payment_intent,
        second.payment_attempt.connector is Some,
        second.payment_attempt.merchant_connector_id is Some,
        confirm_update_outcome(s, first, storage_scheme).0 is Ok,
    ensures
        ({
            let after_first = confirm_update_outcome(s, first, storage_scheme).1;
            &&& confirm_update_outcome(after_first, second, storage_scheme).0 == Err::<
                PaymentConfirmData,
                ApiErrorResponse,
            >(ApiErrorResponse::Conflict)
            &&& confirm_update_outcome(after_first, second, storage_scheme).1 == after_first
        }),
{
    let prior = first.payment_intent;
    let d = confirm_intent_update(storage_scheme);
    let n = s.intent_update_outcome(prior, d)->Ok_0;
    lemma_update_commits_once(s, prior, d);
    let pair = s.joint_update_outcome(
        prior,
        d,
        first.payment_attempt,
        confirm_attempt_update(
            storage_scheme,
            first.payment_attempt.connector->0,
            first.payment_attempt.merchant_connector_id->0,
        ),
    )->Ok_0;
    assert(pair.0 == n);
    let after_first = s.with_intent(n).with_attempt(pair.1);
    assert(after_first.intents == s.with_intent(n).intents);
    assert(after_first.intent_update_outcome(prior, d) == s.with_intent(n).intent_update_outcome(
        prior,
        d,
    ));
}

/// A confirm run on an intent awaiting confirmation, with its business
/// profile stored, a fresh attempt id, a routing decision and a valid
/// request, succeeds: the intent is `Processing`, the attempt `Pending`, and
/// the attempt's net amount is the intent's order amount.
pub proof fn lemma_confirm_happy_path(
    s: StoreView,
    context: RequestContext,
    payment_id: PaymentId,
    request: PaymentsConfirmIntentRequest,
    merchant_account: MerchantAccount,
    choice: ConnectorChoice,
)
    requires
        s.wf(),
        s.has_intent(payment_id),
        s.intent(payment_id).status == IntentStatus::RequiresConfirmation,
        s.intent(payment_id).version < u64::MAX,
        s.has_profile(s.intent(payment_id).profile_id),
        !s.has_attempt(AttemptId { cell: context.cell_id, value: context.attempt_nonce }),
        family_of(request.payment_method_subtype) == request.payment_method_type,
    ensures
        pipeline_outcome(
            PaymentsIntentConfirm,
            s,
            context,
            payment_id,
            request,
            merchant_account,
            Some(choice),
        ).0 matches Ok(d) && d.payment_intent.id == payment_id && d.payment_intent.status
            == IntentStatus::Processing && d.payment_attempt.status == AttemptStatus::Pending
            && d.payment_attempt.amount_details.net_amount == s.intent(
            payment_id,
        ).amount_details.order_amount && d.payment_attempt.connector == Some(choice.connector)
            && d.payment_attempt.merchant_connector_id == Some(choice.merchant_connector_id),
{
    let intent = s.intent(payment_id);
    let scheme = merchant_account.storage_scheme;
    let a = confirm_attempt_model(request, context, intent, scheme);
    let s1 = StoreView { attempts: s.attempts.push(a), ..s };
    let k = s.intent_index(payment_id);
    assert(s.intents[k].id == payment_id);
    assert(s1.has_intent(intent.id));
    assert(s1.intent(intent.id) == intent);
    let last = s.attempts.len() as int;
    assert(s1.attempts[last] == a);
    assert(s1.has_attempt(a.id));
    let j = s1.attempt_index(a.id);
    if j != last {
        assert(s.attempts[j].id == a.id);
        assert(s.has_attempt(a.id));
    }
    assert(s1.attempt(a.id) == a);
    let routed = with_routing(
        PaymentConfirmData {
            payment_intent: intent,
            payment_attempt: a,
            payment_method_data: Some(request.payment_method_data),
        },
        Some(choice),
    );
    assert(s1.intent_update_outcome(intent, confirm_intent_update(scheme)) is Ok);
    assert(s1.attempt_update_outcome(
        routed.payment_attempt,
        confirm_attempt_update(scheme, choice.connector, choice.merchant_connector_id),
    ) is Ok);
}

/// Confirming never reopens an intent whose stored status is terminal,
/// whatever copy of it the run carries: the persist stage fails and the
/// store is left as it was.
pub proof fn lemma_confirm_never_reopens_terminal(
    s: StoreView,
    payment_data: PaymentConfirmData,
    storage_scheme: MerchantStorageScheme,
)
    requires
        s.wf(),
        s.has_intent(payment_data.payment_intent.id),
        intent_is_terminal(s.intent(payment_data.payment_intent.id).status),
    ensures
        confirm_update_outcome(s, payment_data, storage_scheme).0 is Err,
        confirm_update_outcome(s, payment_data, storage_scheme).1 == s,
{
}

impl PaymentsIntentConfirm {
    /// Accepts a request whose payment method type belongs to its payment
    /// method family; the run is never queued.
    pub fn validate_request(
        &self,
        request: &PaymentsConfirmIntentRequest,
        merchant_account: &MerchantAccount,
    ) -> (r: Result<ValidateResult, ApiErrorResponse>)
        ensures
            r == confirm_validate_outcome(*request, *merchant_account),
    {
        if !validate_payment_method_type_against_payment_method(
            request.payment_method_type,
            request.payment_method_subtype,
        ) {
            return Err(ApiErrorResponse::InvalidRequestData);
        }
        Ok(
            ValidateResult {
                merchant_id: merchant_account.get_id(),
                storage_scheme: merchant_account.storage_scheme,
                requeue: false,
            },
        )
    }

    /// Reads the intent, creates and stores a fresh attempt for it, then
    /// reads the intent's business profile. The stored attempt stays stored
    /// whatever happens afterwards.
    pub fn get_trackers(
        &self,
        store: &mut InMemoryStore,
        context: &RequestContext,
        payment_id: PaymentId,
        request: &PaymentsConfirmIntentRequest,
        merchant_account: &MerchantAccount,
    ) -> (r: Result<PaymentConfirmData, ApiErrorResponse>)
        requires
            old(store)@.wf(),
        ensures
            final(store)@.wf(),
            store_advanced(old(store)@, final(store)@),
            (r, final(store)@) == confirm_trackers_outcome(
                old(store)@,
                *context,
                payment_id,
                *request,
                merchant_account.storage_scheme,
            ),
    {
        let storage_scheme = merchant_account.storage_scheme;
        let payment_intent = match store.find_payment_intent_by_id(payment_id) {
            Ok(i) => i,
            Err(_) => return Err(ApiErrorResponse::PaymentNotFound),
        };
        let payment_attempt_domain_model = request.create_domain_model_from_request(
            context,
            &payment_intent,
            storage_scheme,
        );
        let payment_attempt = match store.insert_payment_attempt(payment_attempt_domain_model) {
            Ok(a) => a,
            Err(_) => return Err(ApiErrorResponse::InternalServerError),
        };
        let profile_id = payment_intent.profile_id;
        match store.find_business_profile_by_profile_id(profile_id) {
            Ok(_) => {},
            Err(_) => return Err(ApiErrorResponse::ProfileNotFound { id: profile_id }),
        }
        Ok(
            PaymentConfirmData {
                payment_intent,
                payment_attempt,
                payment_method_data: Some(request.payment_method_data),
            },
        )
    }

    /// Confirm needs no customer.
    pub fn get_customer_details(&self, payment_data: &mut PaymentConfirmData) -> (r: Result<
        Option<Customer>,
        ApiErrorResponse,
    >)
        ensures
            r == Ok::<Option<Customer>, ApiErrorResponse>(None),
            *final(payment_data) == *old(payment_data),
    {
        Ok(None)
    }

    /// Confirm resolves no further payment method data.
    pub fn make_pm_data(&self, payment_data: &mut PaymentConfirmData) -> (r: Result<
        Option<PaymentMethodData>,
        ApiErrorResponse,
    >)
        ensures
            r == Ok::<Option<PaymentMethodData>, ApiErrorResponse>(None),
            *final(payment_data) == *old(payment_data),
    {
        Ok(None)
    }

    /// Confirm does not select a connector itself: the routing decision is
    /// made before its update stage.
    pub fn get_connector(
        &self,
        merchant_account: &MerchantAccount,
        request: &PaymentsConfirmIntentRequest,
        payment_intent: &PaymentIntent,
    ) -> (r: Result<ConnectorChoice, ApiErrorResponse>)
        ensures
            r == Err::<ConnectorChoice, ApiErrorResponse>(ApiErrorResponse::NotImplemented),
    {
        Err(ApiErrorResponse::NotImplemented)
    }

    /// Moves the intent to `Processing` and the attempt to `Pending` with its
    /// routing, in one conditional write against the versions this run read:
    /// either both records change or neither does. An attempt without its
    /// connector or its merchant connector account is refused before
    /// anything is written.
    pub fn update_trackers(
        &self,
        store: &mut InMemoryStore,
        payment_data: PaymentConfirmData,
        customer: Option<Customer>,
        storage_scheme: MerchantStorageScheme,
    ) -> (r: Result<PaymentConfirmData, ApiErrorResponse>)
        requires
            old(store)@.wf(),
        ensures
            final(store)@.wf(),
            store_advanced(old(store)@, final(store)@),
            (r, final(store)@) == confirm_update_outcome(old(store)@, payment_data, storage_scheme),
    {
        let connector = match payment_data.payment_attempt.connector {
            Some(c) => c,
            None => {
                return Err(ApiErrorResponse::MissingRequiredField { field: RequiredField::Connector });
            },
        };
        let merchant_connector_id = match payment_data.payment_attempt.merchant_connector_id {
            Some(m) => m,
            None => {
                return Err(
                    ApiErrorResponse::MissingRequiredField { field: RequiredField::MerchantConnectorId },
                );
            },
        };
        let payment_intent_update = PaymentIntentUpdate::ConfirmIntent {
            status: IntentStatus::Processing,
            updated_by: storage_scheme,
        };
        let payment_attempt_update = PaymentAttemptUpdate::ConfirmIntent {
            status: AttemptStatus::Pending,
            updated_by: storage_scheme,
            connector,
            merchant_connector_id,
        };
        let (updated_payment_intent, updated_payment_attempt) =
            match store.update_payment_intent_and_attempt(
            payment_data.payment_intent,
            payment_intent_update,
            payment_data.payment_attempt,
            payment_attempt_update,
        ) {
            Ok(pair) => pair,
            Err(e) => return Err(ApiErrorResponse::from_update_error(e)),
        };
        let mut payment_data = payment_data;
        payment_data.payment_intent = updated_payment_intent;
        payment_data.payment_attempt = updated_payment_attempt;
        Ok(payment_data)
    }
}

impl Operation for PaymentsIntentConfirm {
    type Request = PaymentsConfirmIntentRequest;

    open spec fn validate_outcome(
        &self,
        request: PaymentsConfirmIntentRequest,
        merchant_account: MerchantAccount,
    ) -> Result<ValidateResult, ApiErrorResponse> {
        confirm_validate_outcome(request, merchant_account)
    }

    open spec fn trackers_outcome(
        &self,
        s: StoreView,
        context: RequestContext,
        payment_id: PaymentId,
        request: PaymentsConfirmIntentRequest,
        merchant_account: MerchantAccount,
    ) -> (Result<PaymentConfirmData, ApiErrorResponse>, StoreView) {
        confirm_trackers_outcome(s, context, payment_id, request, merchant_account.storage_scheme)
    }

    open spec fn customer_outcome(&self, payment_data: PaymentConfirmData) -> (
        Result<Option<Customer>, ApiErrorResponse>,
        PaymentConfirmData,
    ) {
        (Ok(None), payment_data)
    }

    open spec fn pm_data_outcome(&self, payment_data: PaymentConfirmData) -> (
        Result<Option<PaymentMethodData>, ApiErrorResponse>,
        PaymentConfirmData,
    ) {
        (Ok(None), payment_data)
    }

    open spec fn connector_outcome(
        &self,
        merchant_account: MerchantAccount,
        request: PaymentsConfirmIntentRequest,
        payment_intent: PaymentIntent,
    ) -> Result<ConnectorChoice, ApiErrorResponse> {
        Err(ApiErrorResponse::NotImplemented)
    }

    open spec fn update_outcome(
        &self,
        s: StoreView,
        payment_data: PaymentConfirmData,
        customer: Option<Customer>,
        storage_scheme: MerchantStorageScheme,
    ) -> (Result<PaymentConfirmData, ApiErrorResponse>, StoreView) {
        confirm_update_outcome(s, payment_data, storage_scheme)
    }

    fn validate_request(
        &self,
        request: &PaymentsConfirmIntentRequest,
        merchant_account: &MerchantAccount,
    ) -> (r: Result<ValidateResult, ApiErrorResponse>) {
        PaymentsIntentConfirm::validate_request(self, request, merchant_account)
    }

    fn get_trackers(
        &self,
        store: &mut InMemoryStore,
        context: &RequestContext,
        payment_id: PaymentId,
        request: &PaymentsConfirmIntentRequest,
        merchant_account: &MerchantAccount,
    ) -> (r: Result<PaymentConfirmData, ApiErrorResponse>) {
        PaymentsIntentConfirm::get_trackers(self, store, context, payment_id, request, merchant_account)
    }

    fn get_customer_details(&self, payment_data: &mut PaymentConfirmData) -> (r: Result<
        Option<Customer>,
        ApiErrorResponse,
    >) {
        PaymentsIntentConfirm::get_customer_details(self, payment_data)
    }

    fn make_pm_data(&self, payment_data: &mut PaymentConfirmData) -> (r: Result<
        Option<PaymentMethodData>,
        ApiErrorResponse,
    >) {
        PaymentsIntentConfirm::make_pm_data(self, payment_data)
    }

    fn get_connector(
        &self,
        merchant_account: &MerchantAccount,
        request: &PaymentsConfirmIntentRequest,
        payment_intent: &PaymentIntent,
    ) -> (r: Result<ConnectorChoice, ApiErrorResponse>) {
        PaymentsIntentConfirm::get_connector(self, merchant_account, request, payment_intent)
    }

    fn update_trackers(
        &self,
        store: &mut InMemoryStore,
        payment_data: PaymentConfirmData,
        customer: Option<Customer>,
        storage_scheme: MerchantStorageScheme,
    ) -> (r: Result<PaymentConfirmData, ApiErrorResponse>) {
        PaymentsIntentConfirm::update_trackers(self, store, payment_data, customer, storage_scheme)
    }
}

} // verus!
