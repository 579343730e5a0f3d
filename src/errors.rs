//! Errors that operations surface to callers, and their stable categories.
use vstd::prelude::*;
use crate::domain::ProfileId;
use crate::store::StorageError;

verus! {

/// A value that a pipeline stage requires an earlier stage to have set.
#[derive(Clone, Copy, Debug, PartialEq, Eq, Structural)]
pub enum RequiredField {
    Connector,
    MerchantConnectorId,
}

#[derive(Clone, Copy, Debug, PartialEq, Eq, Structural)]
pub enum ApiErrorResponse {
    /// The request is inconsistent in itself or with the merchant's configuration.
    InvalidRequestData,
    /// The stored intent cannot move to the status the operation asks for.
    InvalidStatusTransition,
    PaymentNotFound,
    ProfileNotFound { id: ProfileId },
    /// An earlier stage left a value unset that this stage depends on.
    MissingRequiredField { field: RequiredField },
    /// The record changed since it was read; the caller may run the operation again.
    Conflict,
    InternalServerError,
    /// The operation does not implement this capability.
    NotImplemented,
}

/// What a client can branch on.
#[derive(Clone, Copy, Debug, PartialEq, Eq, Structural)]
pub enum ErrorCategory {
    NotFound,
    Validation,
    Conflict,
    Internal,
}

pub open spec fn error_category(e: ApiErrorResponse) -> ErrorCategory {
    match e {
        ApiErrorResponse::InvalidRequestData => ErrorCategory::Validation,
        ApiErrorResponse::InvalidStatusTransition => ErrorCategory::Validation,
        ApiErrorResponse::PaymentNotFound => ErrorCategory::NotFound,
        ApiErrorResponse::ProfileNotFound { .. } => ErrorCategory::NotFound,
        ApiErrorResponse::MissingRequiredField { .. } => ErrorCategory::Internal,
        ApiErrorResponse::Conflict => ErrorCategory::Conflict,
        ApiErrorResponse::InternalServerError => ErrorCategory::Internal,
        ApiErrorResponse::NotImplemented => ErrorCategory::Internal,
    }
}

/// The error a failed conditional update surfaces as.
pub open spec fn update_error(e: StorageError) -> ApiErrorResponse {
    match e {
        StorageError::Conflict => ApiErrorResponse::Conflict,
        StorageError::InvalidTransition => ApiErrorResponse::InvalidStatusTransition,
        _ => ApiErrorResponse::InternalServerError,
    }
}

impl ApiErrorResponse {
    pub fn category(&self) -> (r: ErrorCategory)
        ensures
            r == error_category(*self),
    {
        match self {
            ApiErrorResponse::InvalidRequestData => ErrorCategory::Validation,
            ApiErrorResponse::InvalidStatusTransition => ErrorCategory::Validation,
            ApiErrorResponse::PaymentNotFound => ErrorCategory::NotFound,
            ApiErrorResponse::ProfileNotFound { .. } => ErrorCategory::NotFound,
            ApiErrorResponse::MissingRequiredField { .. } => ErrorCategory::Internal,
            ApiErrorResponse::Conflict => ErrorCategory::Conflict,
            ApiErrorResponse::InternalServerError => ErrorCategory::Internal,
            ApiErrorResponse::NotImplemented => ErrorCategory::Internal,
        }
    }

    pub fn from_update_error(e: StorageError) -> (r: ApiErrorResponse)
        ensures
            r == update_error(e),
    {
        match e {
            StorageError::Conflict => ApiErrorResponse::Conflict,
            StorageError::InvalidTransition => ApiErrorResponse::InvalidStatusTransition,
            _ => ApiErrorResponse::InternalServerError,
        }
    }
}

} // verus!
