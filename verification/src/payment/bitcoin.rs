//! Lightning invoices.

use vstd::prelude::*;
use vstd::string::*;
use crate::digest::{base58_string, base58_text, sha3_256_bytes, sha3_256_digest};
use crate::text::{decimal, decimal_string, has_prefix, opt_str_text, text_starts_with, utf8};
use super::{PaymentError, PaymentGateway};

verus! {

/// An invoice is well formed when it begins with one of the network prefixes
/// `lnbc`, `lntb` or `lnsb` and is longer than ten bytes.
pub open spec fn invoice_ok(invoice: Seq<char>) -> bool {
    &&& has_prefix(invoice, "lnbc"@) || has_prefix(invoice, "lntb"@) || has_prefix(
        invoice,
        "lnsb"@,
    )
    &&& utf8(invoice).len() > 10
}

/// The invoice for a request at a price: the main-network prefix, the price
/// in nano-units, and the Base58 text of the SHA3-256 digest of the request
/// identifier.
pub open spec fn invoice_text(price: u64, request_id: Seq<char>) -> Seq<char> {
    "lnbc"@ + decimal(price as nat) + "n1"@ + base58_text(sha3_256_digest(utf8(request_id)))
}

/// What the gateway answers for an optional invoice.
pub open spec fn validation(invoice: Option<Seq<char>>, require_payment: bool, free_local: bool)
    -> Result<(), PaymentError> {
    if !require_payment || free_local {
        Ok(())
    } else if invoice is Some && invoice_ok(invoice->0) {
        Ok(())
    } else {
        Err(PaymentError::MissingOrInvalidInvoice)
    }
}

/// A Lightning node that sells proofs at a fixed price.
#[derive(Debug)]
pub struct LightningGateway {
    pub node_id: String,
    pub price_per_proof_sats: u64,
}

impl LightningGateway {
    /// A gateway for the node, at a thousand satoshis a proof.
    pub fn new(node_id: &str) -> (gateway: Self)
        ensures
            gateway.node_id@ == node_id@,
            gateway.price_per_proof_sats == 1000,
    {
        Self { node_id: String::from_str(node_id), price_per_proof_sats: 1_000 }
    }

    /// Writes the invoice for a request.
    pub fn invoice_for_task(&self, request_id: &str) -> (out: String)
        ensures
            out@ == invoice_text(self.price_per_proof_sats, request_id@),
    {
        let digest = sha3_256_bytes(request_id.as_bytes());
        let encoded = base58_string(digest.as_slice());
        let mut out = String::from_str("lnbc");
        out.append(decimal_string(self.price_per_proof_sats).as_str());
        out.append("n1");
        out.append(encoded.as_str());
        out
    }

    /// Whether an invoice is well formed.
    pub fn is_valid_invoice(invoice: &str) -> (ok: bool)
        ensures
            ok == invoice_ok(invoice@),
    {
        let prefixed = text_starts_with(invoice, "lnbc") || text_starts_with(invoice, "lntb")
            || text_starts_with(invoice, "lnsb");
        prefixed && invoice.as_bytes().len() > 10
    }
}

impl PaymentGateway for LightningGateway {
    /// Accepts a request that need not pay, or that brings a well-formed
    /// invoice.
    fn validate_invoice(&self, invoice: Option<&str>, require_payment: bool, free_local: bool) -> (r:
        Result<(), PaymentError>)
        ensures
            r == validation(
                opt_str_text(invoice),
                require_payment,
                free_local,
            ),
    {
        if !require_payment || free_local {
            return Ok(());
        }
        match invoice {
            Some(raw) => {
                if Self::is_valid_invoice(raw) {
                    Ok(())
                } else {
                    Err(PaymentError::MissingOrInvalidInvoice)
                }
            },
            None => Err(PaymentError::MissingOrInvalidInvoice),
        }
    }
}

} // verus!
