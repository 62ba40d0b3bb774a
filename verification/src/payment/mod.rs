//! Payment for proofs.

use vstd::prelude::*;

pub mod bitcoin;

verus! {

/// Why a payment was not accepted.
#[derive(Debug, PartialEq, Eq, Structural)]
pub enum PaymentError {
    MissingOrInvalidInvoice,
    PaymentNotRequired,
}

/// The message of a payment error, as shown to a caller.
pub open spec fn payment_message(e: PaymentError) -> Seq<char> {
    match e {
        PaymentError::MissingOrInvalidInvoice => "missing or invalid Lightning invoice"@,
        PaymentError::PaymentNotRequired => "payment not required"@,
    }
}

impl PaymentError {
    /// The message of the error.
    pub fn message(&self) -> (out: String)
        ensures
            out@ == payment_message(*self),
    {
        match self {
            PaymentError::MissingOrInvalidInvoice => "missing or invalid Lightning invoice".to_owned(),
            PaymentError::PaymentNotRequired => "payment not required".to_owned(),
        }
    }
}

/// Something that decides whether a request has paid. No payment is asked
/// where none is required or the request is free for being local.
pub trait PaymentGateway {
    fn validate_invoice(&self, invoice: Option<&str>, require_payment: bool, free_local: bool) -> (r:
        Result<(), PaymentError>)
        ensures
            !require_payment || free_local ==> r is Ok,
    ;
}

} // verus!
