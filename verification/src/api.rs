//! What the request handlers decide: who may ask, what is recorded of a
//! request, and how a failure is reported. The handlers themselves, which
//! read and answer requests, live outside this library.

use vstd::prelude::*;
use vstd::string::*;
use crate::audit::{payloads_single_line, AuditEntry};
use crate::dag::dag::{node_id, DagNodeView, RequestDag};
use crate::payment::bitcoin::{validation, LightningGateway};
use crate::payment::{PaymentError, PaymentGateway};
use crate::policy::{
    prompt_outcome,
    PolicyError,
    PolicyErrorView,
    SafetyAction,
    SafetyActionView,
    SafetyConfigView,
    SafetyPolicy,
};
use crate::text::{
    decimal,
    decimal_string,
    json_string,
    json_string_of,
    lemma_decimal_single_line,
    lemma_json_string_single_line,
    lemma_short_single_line,
    opt_str_text,
    opt_text,
    same_text,
    single_line,
};
use crate::verification::axiom_checker::{
    empty_signature,
    signature_absent,
    C0Signature,
    C0SignatureView,
    VerificationError,
    VerificationErrorView,
};

verus! {

/// A failure as it is reported: an HTTP status code and a message.
#[derive(Debug)]
pub struct ApiError {
    pub status: u16,
    pub message: String,
}

/// What a reported failure holds.
pub struct ApiErrorView {
    pub status: int,
    pub message: Seq<char>,
}

impl View for ApiError {
    type V = ApiErrorView;

    open spec fn view(&self) -> ApiErrorView {
        ApiErrorView { status: self.status as int, message: self.message@ }
    }
}

impl ApiError {
    /// A failure with the given status code and message.
    pub fn new(status: u16, message: String) -> (err: Self)
        ensures
            err@ == (ApiErrorView { status: status as int, message: message@ }),
    {
        Self { status, message }
    }

    /// The status code and the body under which the failure is sent.
    pub fn into_parts(self) -> (parts: (u16, ErrorResponse))
        ensures
            parts.0 == self.status,
            parts.1.error@ == self.message@,
    {
        (self.status, ErrorResponse { error: self.message })
    }
}

/// The body of a verified request.
#[derive(Debug)]
pub struct VerifiedRequest {
    pub prompt: String,
    pub axiom_set: String,
    pub max_steps: Option<u32>,
    pub lightning_invoice: Option<String>,
    pub allow_network: Option<bool>,
    pub free_local: Option<bool>,
}

/// The body under which a failure is sent.
#[derive(Debug)]
pub struct ErrorResponse {
    pub error: String,
}

/// The answer to a creative request.
#[derive(Debug)]
pub struct CreativeResponse {
    pub request_id: String,
    pub output: String,
    pub mode: String,
}

/// The answer to a verified request.
pub struct VerifiedResponse {
    pub request_id: String,
    pub output: String,
    pub c0_signature: C0Signature,
    pub proof_uri: String,
    pub merkle_root: String,
}

/// Whether a switch is on: the texts `1`, `true`, `TRUE`, `yes` and `on`
/// switch it on, any other text off, and no text leaves the default.
pub open spec fn flag_value(value: Option<Seq<char>>, default: bool) -> bool {
    match value {
        Some(v) => v == "1"@ || v == "true"@ || v == "TRUE"@ || v == "yes"@ || v == "on"@,
        None => default,
    }
}

/// Reads a switch from the text that was found for it, if any.
pub fn flag_from(value: Option<&str>, default: bool) -> (on: bool)
    ensures
        on == flag_value(
            opt_str_text(value),
            default,
        ),
{
    match value {
        Some(v) => same_text(v, "1") || same_text(v, "true") || same_text(v, "TRUE") || same_text(
            v,
            "yes",
        ) || same_text(v, "on"),
        None => default,
    }
}

/// How a policy error is reported.
pub open spec fn policy_api_error(e: PolicyErrorView) -> ApiErrorView {
    match e {
        PolicyErrorView::Blocked(term) => ApiErrorView { status: 403, message: term },
        PolicyErrorView::VerifiedDisabled => ApiErrorView {
            status: 403,
            message: "verified mode disabled"@,
        },
        PolicyErrorView::NetworkDisabled => ApiErrorView {
            status: 403,
            message: "network disabled for request"@,
        },
        PolicyErrorView::EscalationRequired(terms) => ApiErrorView { status: 400, message: terms },
        PolicyErrorView::ConfigLoad(message) => ApiErrorView { status: 500, message },
    }
}

/// How a payment error is reported.
pub open spec fn payment_api_error(e: PaymentError) -> ApiErrorView {
    match e {
        PaymentError::MissingOrInvalidInvoice => ApiErrorView {
            status: 402,
            message: "valid Lightning invoice required"@,
        },
        PaymentError::PaymentNotRequired => ApiErrorView {
            status: 200,
            message: "payment not required"@,
        },
    }
}

/// How a verification error is reported.
pub open spec fn verification_api_error(e: VerificationErrorView) -> ApiErrorView {
    match e {
        VerificationErrorView::InvalidAxiomSet(message) => ApiErrorView { status: 400, message },
        VerificationErrorView::RuleFailed(rule) => ApiErrorView {
            status: 422,
            message: "rule failed: "@ + rule,
        },
        VerificationErrorView::ModelFailure(message) => ApiErrorView { status: 500, message },
    }
}

/// Reports a policy error.
pub fn policy_error_to_api(err: PolicyError) -> (out: ApiError)
    ensures
        out@ == policy_api_error(err@),
{
    match err {
        PolicyError::Blocked(term) => ApiError { status: 403, message: term },
        PolicyError::VerifiedDisabled => ApiError {
            status: 403,
            message: String::from_str("verified mode disabled"),
        },
        PolicyError::NetworkDisabled => ApiError {
            status: 403,
            message: String::from_str("network disabled for request"),
        },
        PolicyError::EscalationRequired(terms) => ApiError { status: 400, message: terms },
        PolicyError::ConfigLoad(message) => ApiError { status: 500, message },
    }
}

/// Reports a payment error.
pub fn payment_error_to_api(err: PaymentError) -> (out: ApiError)
    ensures
        out@ == payment_api_error(err),
{
    match err {
        PaymentError::MissingOrInvalidInvoice => ApiError {
            status: 402,
            message: String::from_str("valid Lightning invoice required"),
        },
        PaymentError::PaymentNotRequired => ApiError {
            status: 200,
            message: String::from_str("payment not required"),
        },
    }
}

/// Reports a verification error.
pub fn verification_error_to_api(err: VerificationError) -> (out: ApiError)
    ensures
        out@ == verification_api_error(err@),
{
    match err {
        VerificationError::InvalidAxiomSet(message) => ApiError { status: 400, message },
        VerificationError::RuleFailed(rule) => {
            let mut message = String::from_str("rule failed: ");
            message.append(rule.as_str());
            ApiError { status: 422, message }
        },
        VerificationError::ModelFailure(message) => ApiError { status: 500, message },
    }
}

/// The view of a screening's result.
pub open spec fn screen_view(r: Result<(), ApiError>) -> Result<(), ApiErrorView> {
    match r {
        Ok(()) => Ok(()),
        Err(e) => Err(e@),
    }
}

/// Whether a creative request is let through: the prompt must pass the
/// policy, and the request must have paid where payment is required.
pub open spec fn creative_screening(
    config: SafetyConfigView,
    require_payment: bool,
    prompt: Seq<char>,
    invoice: Option<Seq<char>>,
) -> Result<(), ApiErrorView> {
    match prompt_outcome(prompt, config) {
        Err(e) => Err(policy_api_error(e)),
        Ok(_) => match validation(invoice, require_payment, false) {
            Err(e) => Err(payment_api_error(e)),
            Ok(()) => Ok(()),
        },
    }
}

/// Whether a verified request is let through: the prompt must pass the
/// policy, the verified mode must be on, the network must be allowed where
/// the request asks for it, and the request must have paid where payment is
/// required and it is not free for being local. The first test that fails
/// decides the report.
pub open spec fn verified_screening(
    config: SafetyConfigView,
    require_payment: bool,
    prompt: Seq<char>,
    invoice: Option<Seq<char>>,
    allow_network: Option<bool>,
    free_local: Option<bool>,
) -> Result<(), ApiErrorView> {
    let wants_network = match allow_network {
        Some(flag) => flag,
        None => config.allow_network,
    };
    let free = match free_local {
        Some(flag) => flag,
        None => false,
    };
    match prompt_outcome(prompt, config) {
        Err(e) => Err(policy_api_error(e)),
        Ok(_) => if !config.allow_verified {
            Err(policy_api_error(PolicyErrorView::VerifiedDisabled))
        } else if wants_network && !config.allow_network {
            Err(policy_api_error(PolicyErrorView::NetworkDisabled))
        } else {
            match validation(invoice, require_payment, free) {
                Err(e) => Err(payment_api_error(e)),
                Ok(()) => Ok(()),
            }
        },
    }
}

fn invoice_of(invoice: &Option<String>) -> (out: Option<&str>)
    ensures
        opt_str_text(out) == opt_text(*invoice),
{
    match invoice {
        Some(s) => Some(s.as_str()),
        None => None,
    }
}

/// Screens a creative request.
pub fn screen_creative(
    policy: &SafetyPolicy,
    payment: &LightningGateway,
    require_payment: bool,
    prompt: &str,
    invoice: &Option<String>,
) -> (r: Result<(), ApiError>)
    ensures
        screen_view(r) == creative_screening(
            policy.config(),
            require_payment,
            prompt@,
            opt_text(*invoice),
        ),
{
    match policy.check_prompt(prompt) {
        Err(e) => {
            return Err(policy_error_to_api(e));
        },
        Ok(_) => {},
    }
    match payment.validate_invoice(invoice_of(invoice), require_payment, false) {
        Err(e) => Err(payment_error_to_api(e)),
        Ok(()) => Ok(()),
    }
}

/// Screens a verified request.
pub fn screen_verified(
    policy: &SafetyPolicy,
    payment: &LightningGateway,
    require_payment: bool,
    body: &VerifiedRequest,
) -> (r: Result<(), ApiError>)
    ensures
        screen_view(r) == verified_screening(
            policy.config(),
            require_payment,
            body.prompt@,
            opt_text(body.lightning_invoice),
            body.allow_network,
            body.free_local,
        ),
{
    match policy.check_prompt(body.prompt.as_str()) {
        Err(e) => {
            return Err(policy_error_to_api(e));
        },
        Ok(_) => {},
    }
    match policy.ensure_verified_enabled() {
        Err(e) => {
            return Err(policy_error_to_api(e));
        },
        Ok(()) => {},
    }
    let allow_network = match body.allow_network {
        Some(flag) => flag,
        None => policy.allow_network_by_default(),
    };
    match policy.ensure_network_allowed(allow_network) {
        Err(e) => {
            return Err(policy_error_to_api(e));
        },
        Ok(()) => {},
    }
    let free_local = match body.free_local {
        Some(flag) => flag,
        None => false,
    };
    match payment.validate_invoice(invoice_of(&body.lightning_invoice), require_payment, free_local) {
        Err(e) => Err(payment_error_to_api(e)),
        Ok(()) => Ok(()),
    }
}

/// The step budget of a request that names none.
pub const DEFAULT_MAX_STEPS: u32 = 1024;

/// The payload of the policy stage: the mode and the prompt's length in
/// bytes.
pub open spec fn policy_payload(mode: Seq<char>, prompt_len: nat) -> Seq<char> {
    "{\"mode\":"@ + json_string(mode) + ",\"prompt_len\":"@ + decimal(prompt_len) + "}"@
}

/// The payload of the generation stage of a verified request.
pub open spec fn verified_run_payload(axiom_set_name: Seq<char>, max_steps: u32) -> Seq<char> {
    "{\"axiom_set\":"@ + json_string(axiom_set_name) + ",\"max_steps\":"@ + decimal(
        max_steps as nat,
    ) + "}"@
}

/// The payload of the verification stage.
pub open spec fn verification_payload(free_local: bool, rules: nat) -> Seq<char> {
    "{\"free_local\":"@ + (if free_local {
        "true"@
    } else {
        "false"@
    }) + ",\"rules\":"@ + decimal(rules) + "}"@
}

/// The stage of type `node_type` at position `index` with the given payload.
pub open spec fn stage(node_type: Seq<char>, index: nat, payload: Seq<char>) -> DagNodeView {
    DagNodeView { id: node_id(node_type, index), node_type, payload }
}

/// The provenance of a verified request: the policy check, the generation
/// and the verification, in this order.
pub open spec fn verified_stages(
    prompt_len: nat,
    max_steps: u32,
    axiom_set_name: Seq<char>,
    rules: nat,
    free_local: bool,
) -> Seq<DagNodeView> {
    seq![
        stage("policy_check"@, 0, policy_payload("verified"@, prompt_len)),
        stage("model_run"@, 1, verified_run_payload(axiom_set_name, max_steps)),
        stage("verification"@, 2, verification_payload(free_local, rules)),
    ]
}

/// The records of a verified request have payloads without line breaks, so
/// that the request's audit record is one line.
pub proof fn lemma_verified_stages_single_line(
    prompt_len: nat,
    max_steps: u32,
    axiom_set_name: Seq<char>,
    rules: nat,
    free_local: bool,
)
    ensures
        payloads_single_line(
            verified_stages(prompt_len, max_steps, axiom_set_name, rules, free_local),
        ),
{
    lemma_json_string_single_line("verified"@);
    lemma_json_string_single_line(axiom_set_name);
    lemma_decimal_single_line(prompt_len);
    lemma_decimal_single_line(max_steps as nat);
    lemma_decimal_single_line(rules);
    reveal_strlit("{\"mode\":");
    lemma_short_single_line("{\"mode\":"@);
    reveal_strlit(",\"prompt_len\":");
    lemma_short_single_line(",\"prompt_len\":"@);
    reveal_strlit("}");
    lemma_short_single_line("}"@);
    reveal_strlit("{\"axiom_set\":");
    lemma_short_single_line("{\"axiom_set\":"@);
    reveal_strlit(",\"max_steps\":");
    lemma_short_single_line(",\"max_steps\":"@);
    reveal_strlit("{\"free_local\":");
    lemma_short_single_line("{\"free_local\":"@);
    reveal_strlit("true");
    lemma_short_single_line("true"@);
    reveal_strlit("false");
    lemma_short_single_line("false"@);
    reveal_strlit(",\"rules\":");
    lemma_short_single_line(",\"rules\":"@);
    assert(single_line(policy_payload("verified"@, prompt_len)));
    assert(single_line(verified_run_payload(axiom_set_name, max_steps)));
    assert(single_line(verification_payload(free_local, rules)));
}

/// The provenance of a creative request: the policy check and the
/// generation, whose payload the caller supplies as JSON text.
pub open spec fn creative_stages(prompt_len: nat, run_payload: Seq<char>) -> Seq<DagNodeView> {
    seq![
        stage("policy_check"@, 0, policy_payload("creative"@, prompt_len)),
        stage("model_run"@, 1, run_payload),
    ]
}

fn policy_payload_text(mode: &str, prompt_len: usize) -> (out: String)
    ensures
        out@ == policy_payload(mode@, prompt_len as nat),
{
    let mut out = String::from_str("{\"mode\":");
    out.append(json_string_of(mode).as_str());
    out.append(",\"prompt_len\":");
    out.append(decimal_string(prompt_len as u64).as_str());
    out.append("}");
    out
}

/// Records the provenance of a verified request.
pub fn verified_dag(
    prompt_len: usize,
    max_steps: u32,
    axiom_set_name: &str,
    rules: usize,
    free_local: bool,
) -> (dag: RequestDag)
    ensures
        dag.stages() == verified_stages(
            prompt_len as nat,
            max_steps,
            axiom_set_name@,
            rules as nat,
            free_local,
        ),
        dag.well_formed(),
{
    let mut dag = RequestDag::default();
    dag.add_node("policy_check", policy_payload_text("verified", prompt_len));

    let mut run = String::from_str("{\"axiom_set\":");
    run.append(json_string_of(axiom_set_name).as_str());
    run.append(",\"max_steps\":");
    run.append(decimal_string(max_steps as u64).as_str());
    run.append("}");
    dag.add_node("model_run", run);

    let mut check = String::from_str("{\"free_local\":");
    check.append(if free_local {
        "true"
    } else {
        "false"
    });
    check.append(",\"rules\":");
    check.append(decimal_string(rules as u64).as_str());
    check.append("}");
    dag.add_node("verification", check);

    assert(dag.stages() =~= verified_stages(
        prompt_len as nat,
        max_steps,
        axiom_set_name@,
        rules as nat,
        free_local,
    ));
    dag
}

/// Records the provenance of a creative request.
pub fn creative_dag(prompt_len: usize, run_payload: String) -> (dag: RequestDag)
    ensures
        dag.stages() == creative_stages(prompt_len as nat, run_payload@),
        dag.well_formed(),
{
    let mut dag = RequestDag::default();
    dag.add_node("policy_check", policy_payload_text("creative", prompt_len));
    dag.add_node("model_run", run_payload);
    assert(dag.stages() =~= creative_stages(prompt_len as nat, run_payload@));
    dag
}

/// Where the proof of a request is to be found.
pub open spec fn proof_uri_text(request_id: Seq<char>) -> Seq<char> {
    "zkml://proofs/"@ + request_id
}

/// The answer to a verified request: the output with its signature, where
/// its proof is to be found, and the Merkle root under which it was
/// recorded.
pub fn verified_response(
    request_id: &str,
    output: String,
    c0_signature: C0Signature,
    audit_entry: &AuditEntry,
) -> (out: VerifiedResponse)
    ensures
        out.request_id@ == request_id@,
        out.output@ == output@,
        out.c0_signature@ == c0_signature@,
        out.proof_uri@ == proof_uri_text(request_id@),
        out.merkle_root@ == audit_entry@.merkle_root,
{
    let mut proof_uri = String::from_str("zkml://proofs/");
    proof_uri.append(request_id);
    VerifiedResponse {
        request_id: String::from_str(request_id),
        output,
        c0_signature,
        proof_uri,
        merkle_root: audit_entry.merkle_root.clone(),
    }
}

/// The answer to a creative request.
pub fn creative_response(request_id: &str, output: String) -> (out: CreativeResponse)
    ensures
        out.request_id@ == request_id@,
        out.output@ == output@,
        out.mode@ == "creative"@,
{
    CreativeResponse {
        request_id: String::from_str(request_id),
        output,
        mode: String::from_str("creative"),
    }
}

/// What a verified answer holds.
pub struct VerifiedResponseView {
    pub request_id: Seq<char>,
    pub output: Seq<char>,
    pub c0_signature: C0SignatureView,
    pub proof_uri: Seq<char>,
    pub merkle_root: Seq<char>,
}

impl View for VerifiedResponse {
    type V = VerifiedResponseView;

    open spec fn view(&self) -> VerifiedResponseView {
        VerifiedResponseView {
            request_id: self.request_id@,
            output: self.output@,
            c0_signature: self.c0_signature@,
            proof_uri: self.proof_uri@,
            merkle_root: self.merkle_root@,
        }
    }
}

/// What is said in place of an output to a request that the policy did not
/// let through; nothing for a request that it did.
pub open spec fn refusal_text(action: SafetyActionView) -> Option<Seq<char>> {
    match action {
        SafetyActionView::Allow => None,
        SafetyActionView::Deny(reason) => Some("request denied: "@ + reason),
        SafetyActionView::Escalate(reason) => Some(
            "request requires escalation/consent: "@ + reason,
        ),
    }
}

/// The mode under which a creative request is answered.
pub open spec fn creative_mode(action: SafetyActionView) -> Seq<char> {
    match action {
        SafetyActionView::Allow => "creative"@,
        SafetyActionView::Deny(_) => "creative_denied"@,
        SafetyActionView::Escalate(_) => "creative_pending"@,
    }
}

/// The answer without a result: the given text, the empty signature, and no
/// proof or root.
pub open spec fn unsigned_answer(request_id: Seq<char>, output: Seq<char>) -> VerifiedResponseView {
    VerifiedResponseView {
        request_id,
        output,
        c0_signature: empty_signature(),
        proof_uri: Seq::empty(),
        merkle_root: Seq::empty(),
    }
}

/// The answer to a verified request after the policy's decision: a refusal,
/// a complaint about a missing rule set, a notice that verification failed
/// where the signature is absent, or else the output with its signature,
/// where its proof is to be found, and the given root.
pub open spec fn decided_answer(
    request_id: Seq<char>,
    action: SafetyActionView,
    axiom_set_given: bool,
    output: Seq<char>,
    signature: C0SignatureView,
    merkle_root: Seq<char>,
) -> VerifiedResponseView {
    match refusal_text(action) {
        Some(text) => unsigned_answer(request_id, text),
        None => if !axiom_set_given {
            unsigned_answer(request_id, "axiom_set is required for verified mode"@)
        } else if signature_absent(signature) {
            unsigned_answer(request_id, "verification failed; no output emitted"@)
        } else {
            VerifiedResponseView {
                request_id,
                output,
                c0_signature: signature,
                proof_uri: proof_uri_text(request_id),
                merkle_root,
            }
        },
    }
}

fn refusal(action: &SafetyAction) -> (out: Option<String>)
    ensures
        opt_text(out) == refusal_text(action@),
{
    match action {
        SafetyAction::Allow => None,
        SafetyAction::Deny(reason) => {
            let mut out = String::from_str("request denied: ");
            out.append(reason.as_str());
            Some(out)
        },
        SafetyAction::Escalate(reason) => {
            let mut out = String::from_str("request requires escalation/consent: ");
            out.append(reason.as_str());
            Some(out)
        },
    }
}

fn unsigned(request_id: &str, output: String) -> (out: VerifiedResponse)
    ensures
        out@ == unsigned_answer(request_id@, output@),
{
    VerifiedResponse {
        request_id: String::from_str(request_id),
        output,
        c0_signature: C0Signature::empty(),
        proof_uri: String::new(),
        merkle_root: String::new(),
    }
}

/// Answers a creative request after the policy's decision: a refusal under
/// the mode that names it, or else the output under the creative mode.
pub fn decided_creative_response(request_id: &str, action: &SafetyAction, output: String) -> (out:
    CreativeResponse)
    ensures
        out.request_id@ == request_id@,
        out.output@ == match refusal_text(action@) {
            Some(text) => text,
            None => output@,
        },
        out.mode@ == creative_mode(action@),
{
    let mode = match action {
        SafetyAction::Allow => "creative",
        SafetyAction::Deny(_) => "creative_denied",
        SafetyAction::Escalate(_) => "creative_pending",
    };
    let shown = match refusal(action) {
        Some(text) => text,
        None => output,
    };
    CreativeResponse {
        request_id: String::from_str(request_id),
        output: shown,
        mode: String::from_str(mode),
    }
}

/// Answers a verified request after the policy's decision.
pub fn decided_verified_response(
    request_id: &str,
    action: &SafetyAction,
    axiom_set_given: bool,
    output: String,
    signature: C0Signature,
    merkle_root: String,
) -> (out: VerifiedResponse)
    ensures
        out@ == decided_answer(
            request_id@,
            action@,
            axiom_set_given,
            output@,
            signature@,
            merkle_root@,
        ),
{
    match refusal(action) {
        Some(text) => unsigned(request_id, text),
        None => {
            if !axiom_set_given {
                unsigned(request_id, String::from_str("axiom_set is required for verified mode"))
            } else if signature.is_empty() {
                unsigned(request_id, String::from_str("verification failed; no output emitted"))
            } else {
                let mut proof_uri = String::from_str("zkml://proofs/");
                proof_uri.append(request_id);
                VerifiedResponse {
                    request_id: String::from_str(request_id),
                    output,
                    c0_signature: signature,
                    proof_uri,
                    merkle_root,
                }
            }
        },
    }
}

} // verus!
