//! The four-stage operation pipeline: validate, fetch or create the tracked
//! records, enrich them, persist the update. Each payment operation
//! implements the stages; `run_operation` sequences them for one request.
use vstd::prelude::*;
use crate::domain::{
    ConnectorName, MerchantConnectorAccountId, MerchantId, MerchantStorageScheme, PaymentAttempt,
    PaymentId, PaymentIntent, PaymentMethodData,
};
use crate::errors::ApiErrorResponse;
use crate::store::{lemma_store_advanced_transitive, store_advanced, InMemoryStore, StoreView};

verus! {

/// The merchant on whose behalf an operation runs.
#[derive(Clone, Copy, Debug, PartialEq, Eq, Structural)]
pub struct MerchantAccount {
    pub id: MerchantId,
    pub storage_scheme: MerchantStorageScheme,
}

impl MerchantAccount {
    pub fn get_id(&self) -> (r: MerchantId)
        ensures
            r == self.id,
    {
        self.id
    }
}

/// What the validation stage hands on to the later stages.
#[derive(Clone, Copy, Debug, PartialEq, Eq, Structural)]
pub struct ValidateResult {
    pub merchant_id: MerchantId,
    pub storage_scheme: MerchantStorageScheme,
    /// Whether the request is to be queued for deferred processing.
    pub requeue: bool,
}

/// Values of the serving process that an operation draws on: the cell it runs
/// in, a value unique within that cell for the next attempt id, and the
/// current time in seconds since the Unix epoch.
#[derive(Clone, Copy, Debug, PartialEq, Eq, Structural)]
pub struct RequestContext {
    pub cell_id: u64,
    pub attempt_nonce: u64,
    pub now: i64,
}

/// A routing decision: where the attempt is to be sent.
#[derive(Clone, Copy, Debug, PartialEq, Eq, Structural)]
pub struct ConnectorChoice {
    pub connector: ConnectorName,
    pub merchant_connector_id: MerchantConnectorAccountId,
}

#[derive(Clone, Copy, Debug, PartialEq, Eq, Structural)]
pub struct Customer {
    pub id: u64,
}

/// The records one run of an operation works on.
#[derive(Clone, Copy, Debug, PartialEq, Eq, Structural)]
pub struct PaymentConfirmData {
    pub payment_intent: PaymentIntent,
    pub payment_attempt: PaymentAttempt,
    pub payment_method_data: Option<PaymentMethodData>,
}

/// The stages of the pipeline, in the order they run.
#[derive(Clone, Copy, Debug, PartialEq, Eq, Structural)]
pub enum Stage {
    ValidateRequest,
    GetTrackers,
    Domain,
    UpdateTrackers,
}

/// The stages that run on a successful request, in order.
pub open spec fn pipeline_order() -> Seq<Stage> {
    seq![Stage::ValidateRequest, Stage::GetTrackers, Stage::Domain, Stage::UpdateTrackers]
}

/// The stages that have run when `last` is the last one to run.
pub open spec fn stages_through(last: Stage) -> Seq<Stage> {
    match last {
        Stage::ValidateRequest => pipeline_order().take(1),
        Stage::GetTrackers => pipeline_order().take(2),
        Stage::Domain => pipeline_order().take(3),
        Stage::UpdateTrackers => pipeline_order(),
    }
}

/// A run that fails before its last stage never reaches the persisting
/// stage; in particular a run whose validation fails persists nothing.
pub proof fn lemma_failed_run_skips_persist(failed: Stage)
    requires
        failed != Stage::UpdateTrackers,
    ensures
        !stages_through(failed).contains(Stage::UpdateTrackers),
        stages_through(failed)[0] == Stage::ValidateRequest,
{
    let t = stages_through(failed);
    assert forall|i: int| 0 <= i < t.len() implies t[i] != Stage::UpdateTrackers by {
        assert(t[i] == pipeline_order()[i]);
    }
}

/// A failed run: the stage that failed and its error.
#[derive(Clone, Copy, Debug, PartialEq, Eq, Structural)]
pub struct PipelineError {
    pub stage: Stage,
    pub error: ApiErrorResponse,
}

/// The stages of one payment operation. Each stage names its outcome as a
/// spec function, which the stage's implementation is held to.
pub trait Operation {
    type Request;

    spec fn validate_outcome(&self, request: Self::Request, merchant_account: MerchantAccount) -> Result<
        ValidateResult,
        ApiErrorResponse,
    >;

    /// The fetch stage's result on store `s`, and the store after it.
    spec fn trackers_outcome(
        &self,
        s: StoreView,
        context: RequestContext,
        payment_id: PaymentId,
        request: Self::Request,
        merchant_account: MerchantAccount,
    ) -> (Result<PaymentConfirmData, ApiErrorResponse>, StoreView);

    /// The customer lookup's result, and the data after it.
    spec fn customer_outcome(&self, payment_data: PaymentConfirmData) -> (
        Result<Option<Customer>, ApiErrorResponse>,
        PaymentConfirmData,
    );

    /// The payment method lookup's result, and the data after it.
    spec fn pm_data_outcome(&self, payment_data: PaymentConfirmData) -> (
        Result<Option<PaymentMethodData>, ApiErrorResponse>,
        PaymentConfirmData,
    );

    spec fn connector_outcome(
        &self,
        merchant_account: MerchantAccount,
        request: Self::Request,
        payment_intent: PaymentIntent,
    ) -> Result<ConnectorChoice, ApiErrorResponse>;

    /// The persist stage's result on store `s`, and the store after it.
    spec fn update_outcome(
        &self,
        s: StoreView,
        payment_data: PaymentConfirmData,
        customer: Option<Customer>,
        storage_scheme: MerchantStorageScheme,
    ) -> (Result<PaymentConfirmData, ApiErrorResponse>, StoreView);

    fn validate_request(&self, request: &Self::Request, merchant_account: &MerchantAccount) -> (r:
        Result<ValidateResult, ApiErrorResponse>)
        ensures
            r == self.validate_outcome(*request, *merchant_account),
    ;

    /// Reads the intent and creates or reads the attempt this run works on.
    fn get_trackers(
        &self,
        store: &mut InMemoryStore,
        context: &RequestContext,
        payment_id: PaymentId,
        request: &Self::Request,
        merchant_account: &MerchantAccount,
    ) -> (r: Result<PaymentConfirmData, ApiErrorResponse>)
        requires
            old(store)@.wf(),
        ensures
            final(store)@.wf(),
            store_advanced(old(store)@, final(store)@),
            (r, final(store)@) == self.trackers_outcome(
                old(store)@,
                *context,
                payment_id,
                *request,
                *merchant_account,
            ),
    ;

    fn get_customer_details(&self, payment_data: &mut PaymentConfirmData) -> (r: Result<
        Option<Customer>,
        ApiErrorResponse,
    >)
        ensures
            (r, *final(payment_data)) == self.customer_outcome(*old(payment_data)),
    ;

    fn make_pm_data(&self, payment_data: &mut PaymentConfirmData) -> (r: Result<
        Option<PaymentMethodData>,
        ApiErrorResponse,
    >)
        ensures
            (r, *final(payment_data)) == self.pm_data_outcome(*old(payment_data)),
    ;

    fn get_connector(
        &self,
        merchant_account: &MerchantAccount,
        request: &Self::Request,
        payment_intent: &PaymentIntent,
    ) -> (r: Result<ConnectorChoice, ApiErrorResponse>)
        ensures
            r == self.connector_outcome(*merchant_account, *request, *payment_intent),
    ;

    /// Computes the operation's deltas and applies them through `store`.
    fn update_trackers(
        &self,
        store: &mut InMemoryStore,
        payment_data: PaymentConfirmData,
        customer: Option<Customer>,
        storage_scheme: MerchantStorageScheme,
    ) -> (r: Result<PaymentConfirmData, ApiErrorResponse>)
        requires
            old(store)@.wf(),
        ensures
            final(store)@.wf(),
            store_advanced(old(store)@, final(store)@),
            (r, final(store)@) == self.update_outcome(
                old(store)@,
                payment_data,
                customer,
                storage_scheme,
            ),
    ;
}

/// The data with the routing decision, if any, set on its attempt.
pub open spec fn with_routing(payment_data: PaymentConfirmData, routing: Option<ConnectorChoice>) -> PaymentConfirmData {
    match routing {
        None => payment_data,
        Some(choice) => PaymentConfirmData {
            payment_attempt: PaymentAttempt {
                connector: Some(choice.connector),
                merchant_connector_id: Some(choice.merchant_connector_id),
                ..payment_data.payment_attempt
            },
            ..payment_data
        },
    }
}

/// The outcome of one run of `operation` on store `s`, and the store after
/// it: the stages run in order, the first failing stage ends the run with its
/// own error, and a run that gets through every stage returns what the
/// persist stage returned. The persist stage receives the validated storage
/// scheme and the enriched data with the routing decision applied.
pub open spec fn pipeline_outcome<O: Operation>(
    operation: O,
    s: StoreView,
    context: RequestContext,
    payment_id: PaymentId,
    request: O::Request,
    merchant_account: MerchantAccount,
    routing: Option<ConnectorChoice>,
) -> (Result<PaymentConfirmData, PipelineError>, StoreView) {
    match operation.validate_outcome(request, merchant_account) {
        Err(error) => (Err(PipelineError { stage: Stage::ValidateRequest, error }), s),
        Ok(validated) => {
            let (fetched, s1) = operation.trackers_outcome(
                s,
                context,
                payment_id,
                request,
                merchant_account,
            );
            match fetched {
                Err(error) => (Err(PipelineError { stage: Stage::GetTrackers, error }), s1),
                Ok(d0) => {
                    let (customer, d1) = operation.customer_outcome(d0);
                    match customer {
                        Err(error) => (Err(PipelineError { stage: Stage::Domain, error }), s1),
                        Ok(customer) => {
                            let (pm, d2) = operation.pm_data_outcome(d1);
                            match pm {
                                Err(error) => (Err(PipelineError { stage: Stage::Domain, error }), s1),
                                Ok(_) => {
                                    let (persisted, s2) = operation.update_outcome(
                                        s1,
                                        with_routing(d2, routing),
                                        customer,
                                        validated.storage_scheme,
                                    );
                                    match persisted {
                                        Err(error) => (
                                            Err(PipelineError { stage: Stage::UpdateTrackers, error }),
                                            s2,
                                        ),
                                        Ok(d) => (Ok(d), s2),
                                    }
                                },
                            }
                        },
                    }
                },
            }
        },
    }
}

/// Sets the routing decision on the attempt being worked on.
pub fn apply_connector_choice(payment_data: &mut PaymentConfirmData, choice: ConnectorChoice)
    ensures
        *final(payment_data) == (PaymentConfirmData {
            payment_attempt: PaymentAttempt {
                connector: Some(choice.connector),
                merchant_connector_id: Some(choice.merchant_connector_id),
                ..old(payment_data).payment_attempt
            },
            ..*old(payment_data)
        }),
{
    payment_data.payment_attempt.connector = Some(choice.connector);
    payment_data.payment_attempt.merchant_connector_id = Some(choice.merchant_connector_id);
}

/// Runs `operation` for one request: the stages run strictly in order, and
/// the first failure ends the run. Each stage that starts is appended to
/// `trace`. `routing` is the connector decided before persisting, if any.
pub fn run_operation<O: Operation>(
    operation: &O,
    store: &mut InMemoryStore,
    context: &RequestContext,
    payment_id: PaymentId,
    request: &O::Request,
    merchant_account: &MerchantAccount,
    routing: Option<ConnectorChoice>,
    trace: &mut Vec<Stage>,
) -> (r: Result<PaymentConfirmData, PipelineError>)
    requires
        old(store)@.wf(),
    ensures
        final(store)@.wf(),
        store_advanced(old(store)@, final(store)@),
        r is Ok ==> final(trace)@ == old(trace)@ + pipeline_order(),
        r matches Err(e) ==> final(trace)@ == old(trace)@ + stages_through(e.stage),
        (r, final(store)@) == pipeline_outcome(
            *operation,
            old(store)@,
            *context,
            payment_id,
            *request,
            *merchant_account,
            routing,
        ),
        operation.validate_outcome(*request, *merchant_account) matches Err(e) ==> r == Err::<
            PaymentConfirmData,
            PipelineError,
        >(PipelineError { stage: Stage::ValidateRequest, error: e }) && final(trace)@ == old(trace)@
            + seq![Stage::ValidateRequest] && final(store)@ == old(store)@,
{
    trace.push(Stage::ValidateRequest);
    let validated = match operation.validate_request(request, merchant_account) {
        Ok(v) => v,
        Err(error) => {
            proof {
                assert(trace@ =~= old(trace)@ + stages_through(Stage::ValidateRequest));
            }
            return Err(PipelineError { stage: Stage::ValidateRequest, error });
        },
    };
    trace.push(Stage::GetTrackers);
    let mut payment_data = match operation.get_trackers(
        store,
        context,
        payment_id,
        request,
        merchant_account,
    ) {
        Ok(d) => d,
        Err(error) => {
            proof {
                assert(trace@ =~= old(trace)@ + stages_through(Stage::GetTrackers));
            }
            return Err(PipelineError { stage: Stage::GetTrackers, error });
        },
    };
    trace.push(Stage::Domain);
    let customer = match operation.get_customer_details(&mut payment_data) {
        Ok(c) => c,
        Err(error) => {
            proof {
                assert(trace@ =~= old(trace)@ + stages_through(Stage::Domain));
            }
            return Err(PipelineError { stage: Stage::Domain, error });
        },
    };
    match operation.make_pm_data(&mut payment_data) {
        Ok(_) => {},
        Err(error) => {
            proof {
                assert(trace@ =~= old(trace)@ + stages_through(Stage::Domain));
            }
            return Err(PipelineError { stage: Stage::Domain, error });
        },
    }
    if let Some(choice) = routing {
        apply_connector_choice(&mut payment_data, choice);
    }
    trace.push(Stage::UpdateTrackers);
    proof {
        assert(trace@ =~= old(trace)@ + pipeline_order());
    }
    let ghost tracked_store = store@;
    let r = operation.update_trackers(store, payment_data, customer, validated.storage_scheme);
    proof {
        lemma_store_advanced_transitive(old(store)@, tracked_store, store@);
    }
    match r {
        Ok(d) => Ok(d),
        Err(error) => Err(PipelineError { stage: Stage::UpdateTrackers, error }),
    }
}

} // verus!
