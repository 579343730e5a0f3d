//! Orchestration core of a payment switch: the status lifecycle of payment
//! intents and attempts, a versioned store with conditional updates, the
//! four-stage operation pipeline, and the confirm-intent operation.
pub mod status;
pub mod domain;
pub mod store;
pub mod errors;
pub mod payment_methods;
pub mod operation;
pub mod confirm;
