use axiomhive::payment::bitcoin::LightningGateway;
use axiomhive::payment::{PaymentError, PaymentGateway};

#[test]
fn invoice_required_when_payment_enabled() {
    let gateway = LightningGateway::new("node");
    let err = gateway.validate_invoice(None, true, false);
    assert!(matches!(err, Err(PaymentError::MissingOrInvalidInvoice)));

    let ok = gateway.validate_invoice(Some("lnbc123456789"), true, false);
    assert!(ok.is_ok());
}

#[test]
fn free_local_bypasses_payment() {
    let gateway = LightningGateway::new("node");
    let res = gateway.validate_invoice(None, true, true);
    assert!(res.is_ok());
}

#[test]
fn payment_disabled_allows_no_invoice() {
    let gateway = LightningGateway::new("node");
    let res = gateway.validate_invoice(None, false, false);
    assert!(res.is_ok());
}

#[test]
fn invoice_shape_is_checked() {
    assert!(LightningGateway::is_valid_invoice("lnbc1234567"));
    assert!(LightningGateway::is_valid_invoice("lntb1234567"));
    assert!(LightningGateway::is_valid_invoice("lnsb1234567"));
    assert!(!LightningGateway::is_valid_invoice("lnbc123456"));
    assert!(!LightningGateway::is_valid_invoice("lnxx12345678"));
    assert!(!LightningGateway::is_valid_invoice("xlnbc12345678"));
    assert!(!LightningGateway::is_valid_invoice(""));
    assert!(!LightningGateway::is_valid_invoice("ln"));
    let gateway = LightningGateway::new("node");
    assert_eq!(
        gateway.validate_invoice(Some("bogus-invoice-text"), true, false),
        Err(PaymentError::MissingOrInvalidInvoice)
    );
    assert_eq!(gateway.validate_invoice(Some("bogus"), false, false), Ok(()));
}

#[test]
fn invoice_for_task_encodes_price_and_request() {
    let gateway = LightningGateway::new("node");
    assert_eq!(gateway.node_id, "node");
    assert_eq!(gateway.price_per_proof_sats, 1000);
    let digest = <sha3::Sha3_256 as sha3::Digest>::digest(b"req-1");
    let expected = format!("lnbc1000n1{}", bs58::encode(digest).into_string());
    let invoice = gateway.invoice_for_task("req-1");
    assert_eq!(invoice, expected);
    assert!(LightningGateway::is_valid_invoice(&invoice));
    assert_ne!(invoice, gateway.invoice_for_task("req-2"));
}

#[test]
fn payment_errors_have_messages() {
    assert_eq!(
        PaymentError::MissingOrInvalidInvoice.message(),
        "missing or invalid Lightning invoice"
    );
    assert_eq!(PaymentError::PaymentNotRequired.message(), "payment not required");
}
