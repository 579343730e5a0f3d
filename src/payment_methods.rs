//! Payment method requests and the rule that ties a payment method type to
//! its family.
use vstd::prelude::*;
use crate::domain::{PaymentMethod, PaymentMethodType};
use crate::errors::ApiErrorResponse;

verus! {

/// The family that a payment method type belongs to.
pub open spec fn family_of(t: PaymentMethodType) -> PaymentMethod {
    match t {
        PaymentMethodType::Credit => PaymentMethod::Card,
        PaymentMethodType::Debit => PaymentMethod::Card,
        PaymentMethodType::ApplePay => PaymentMethod::Wallet,
        PaymentMethodType::GooglePay => PaymentMethod::Wallet,
        PaymentMethodType::Ach => PaymentMethod::BankTransfer,
        PaymentMethodType::Sepa => PaymentMethod::BankTransfer,
        PaymentMethodType::Ideal => PaymentMethod::BankRedirect,
        PaymentMethodType::Sofort => PaymentMethod::BankRedirect,
    }
}

pub fn payment_method_of(t: PaymentMethodType) -> (r: PaymentMethod)
    ensures
        r == family_of(t),
{
    match t {
        PaymentMethodType::Credit | PaymentMethodType::Debit => PaymentMethod::Card,
        PaymentMethodType::ApplePay | PaymentMethodType::GooglePay => PaymentMethod::Wallet,
        PaymentMethodType::Ach | PaymentMethodType::Sepa => PaymentMethod::BankTransfer,
        PaymentMethodType::Ideal | PaymentMethodType::Sofort => PaymentMethod::BankRedirect,
    }
}

/// Whether `payment_method_type` is a type of the family `payment_method`.
pub fn validate_payment_method_type_against_payment_method(
    payment_method: PaymentMethod,
    payment_method_type: PaymentMethodType,
) -> (r: bool)
    ensures
        r == (family_of(payment_method_type) == payment_method),
{
    payment_method_of(payment_method_type) == payment_method
}

/// A request to store a payment method for a customer.
#[derive(Clone, Copy, Debug, PartialEq, Eq, Structural)]
pub struct PaymentMethodCreate {
    pub payment_method: Option<PaymentMethod>,
    pub payment_method_type: Option<PaymentMethodType>,
}

impl PaymentMethodCreate {
    /// Rejects a request whose type belongs to another family than its
    /// payment method; a request that leaves either unset passes.
    pub fn validate(&self) -> (r: Result<(), ApiErrorResponse>)
        ensures
            r is Err <==> (self.payment_method matches Some(pm) && self.payment_method_type matches Some(
                t,
            ) && family_of(t) != pm),
            r matches Err(e) ==> e == ApiErrorResponse::InvalidRequestData,
    {
        if let Some(pm) = self.payment_method {
            if let Some(payment_method_type) = self.payment_method_type {
                if !validate_payment_method_type_against_payment_method(pm, payment_method_type) {
                    return Err(ApiErrorResponse::InvalidRequestData);
                }
            }
        }
        Ok(())
    }
}

} // verus!
