use axiomhive::api::{
    creative_dag, creative_response, decided_creative_response, decided_verified_response,
    flag_from, payment_error_to_api, policy_error_to_api, screen_creative, screen_verified,
    verification_error_to_api, verified_dag, verified_response, ApiError, VerifiedRequest,
};
use axiomhive::audit::AuditLog;
use axiomhive::payment::bitcoin::LightningGateway;
use axiomhive::payment::PaymentError;
use axiomhive::policy::{PolicyError, SafetyAction, SafetyConfig, SafetyPolicy};
use axiomhive::verification::axiom_checker::{AxiomSet, C0Signature, VerificationError};

fn request(prompt: &str) -> VerifiedRequest {
    VerifiedRequest {
        prompt: prompt.to_string(),
        axiom_set: "{}".to_string(),
        max_steps: Some(32),
        lightning_invoice: None,
        allow_network: Some(false),
        free_local: Some(true),
    }
}

#[test]
fn switches_are_read_from_text() {
    for on in ["1", "true", "TRUE", "yes", "on"] {
        assert!(flag_from(Some(on), false));
    }
    for off in ["0", "false", "True", "", "ON", "no"] {
        assert!(!flag_from(Some(off), true));
    }
    assert!(flag_from(None, true));
    assert!(!flag_from(None, false));
}

#[test]
fn errors_map_to_status_codes() {
    let e = policy_error_to_api(PolicyError::Blocked("malware".to_string()));
    assert_eq!((e.status, e.message.as_str()), (403, "malware"));
    let e = policy_error_to_api(PolicyError::VerifiedDisabled);
    assert_eq!((e.status, e.message.as_str()), (403, "verified mode disabled"));
    let e = policy_error_to_api(PolicyError::NetworkDisabled);
    assert_eq!((e.status, e.message.as_str()), (403, "network disabled for request"));
    let e = policy_error_to_api(PolicyError::EscalationRequired("a, b".to_string()));
    assert_eq!((e.status, e.message.as_str()), (400, "a, b"));
    let e = policy_error_to_api(PolicyError::ConfigLoad("x".to_string()));
    assert_eq!((e.status, e.message.as_str()), (500, "x"));
    let e = payment_error_to_api(PaymentError::MissingOrInvalidInvoice);
    assert_eq!((e.status, e.message.as_str()), (402, "valid Lightning invoice required"));
    let e = payment_error_to_api(PaymentError::PaymentNotRequired);
    assert_eq!((e.status, e.message.as_str()), (200, "payment not required"));
    let e = verification_error_to_api(VerificationError::InvalidAxiomSet("bad".to_string()));
    assert_eq!((e.status, e.message.as_str()), (400, "bad"));
    let e = verification_error_to_api(VerificationError::RuleFailed("r1".to_string()));
    assert_eq!((e.status, e.message.as_str()), (422, "rule failed: r1"));
    let e = verification_error_to_api(VerificationError::ModelFailure("m".to_string()));
    assert_eq!((e.status, e.message.as_str()), (500, "m"));
}

#[test]
fn verified_requests_are_screened_in_order() {
    let policy = SafetyPolicy::new(SafetyConfig::default());
    let gateway = LightningGateway::new("node");
    assert!(screen_verified(&policy, &gateway, true, &request("hello")).is_ok());

    let blocked = screen_verified(&policy, &gateway, true, &request("malware")).unwrap_err();
    assert_eq!((blocked.status, blocked.message.as_str()), (403, "malware"));

    let mut wants_network = request("hello");
    wants_network.allow_network = Some(true);
    let e = screen_verified(&policy, &gateway, true, &wants_network).unwrap_err();
    assert_eq!((e.status, e.message.as_str()), (403, "network disabled for request"));
    wants_network.allow_network = None;
    assert!(screen_verified(&policy, &gateway, true, &wants_network).is_ok());

    let mut unpaid = request("hello");
    unpaid.free_local = None;
    let e = screen_verified(&policy, &gateway, true, &unpaid).unwrap_err();
    assert_eq!(e.status, 402);
    assert!(screen_verified(&policy, &gateway, false, &unpaid).is_ok());
    unpaid.lightning_invoice = Some("lnbc123456789".to_string());
    assert!(screen_verified(&policy, &gateway, true, &unpaid).is_ok());

    let off = SafetyPolicy::new(SafetyConfig {
        allow_network: false,
        allow_verified: false,
        blocklist: vec![],
        high_risk_terms: vec![],
    });
    let e = screen_verified(&off, &gateway, false, &request("hello")).unwrap_err();
    assert_eq!((e.status, e.message.as_str()), (403, "verified mode disabled"));
}

#[test]
fn creative_requests_are_screened() {
    let policy = SafetyPolicy::new(SafetyConfig::default());
    let gateway = LightningGateway::new("node");
    assert!(screen_creative(&policy, &gateway, false, "hello creative", &None).is_ok());
    let e = screen_creative(&policy, &gateway, true, "hello creative", &None).unwrap_err();
    assert_eq!(e.status, 402);
    let e = screen_creative(&policy, &gateway, false, "medical diagnosis please", &None)
        .unwrap_err();
    assert_eq!((e.status, e.message.as_str()), (400, "medical diagnosis"));
}

#[test]
fn request_provenance_has_the_stages_in_order() {
    let dag = verified_dag(19, 32, "demo", 1, true);
    let ids: Vec<&str> = dag.nodes.iter().map(|n| n.id.as_str()).collect();
    assert_eq!(ids, vec!["policy_check-0", "model_run-1", "verification-2"]);
    assert_eq!(dag.nodes[0].payload, "{\"mode\":\"verified\",\"prompt_len\":19}");
    assert_eq!(dag.nodes[1].payload, "{\"axiom_set\":\"demo\",\"max_steps\":32}");
    assert_eq!(dag.nodes[2].payload, "{\"free_local\":true,\"rules\":1}");
    assert_eq!(
        verified_dag(0, 0, "", 0, false).nodes[2].payload,
        "{\"free_local\":false,\"rules\":0}"
    );
    for node in &dag.nodes {
        let value: serde_json::Value = serde_json::from_str(&node.payload).unwrap();
        assert_eq!(value.to_string(), node.payload);
    }

    let creative = creative_dag(14, "{\"top_k\":16}".to_string());
    assert_eq!(creative.nodes.len(), 2);
    assert_eq!(creative.nodes[0].payload, "{\"mode\":\"creative\",\"prompt_len\":14}");
    assert_eq!(creative.nodes[1].id, "model_run-1");
    assert_eq!(creative.nodes[1].payload, "{\"top_k\":16}");
}

#[test]
fn responses_carry_what_was_recorded() {
    let dag = verified_dag(5, 32, "demo", 0, true);
    let mut log = AuditLog::new(None);
    let entry = log.append("id-1", "verified", &dag);
    let set = AxiomSet { name: "demo".to_string(), version: "1".to_string(), rules: vec![] };
    let sig = C0Signature::new("hello", &set, "out", 32);
    let seal = sig.proof_cert.seal.clone();
    let response = verified_response("id-1", "out".to_string(), sig, &entry);
    assert_eq!(response.request_id, "id-1");
    assert_eq!(response.output, "out");
    assert_eq!(response.proof_uri, "zkml://proofs/id-1");
    assert_eq!(response.merkle_root, entry.merkle_root);
    assert_eq!(Some(response.merkle_root.clone()), dag.merkle_root());
    assert_eq!(response.c0_signature.proof_cert.seal, seal);

    let creative = creative_response("id-2", "text".to_string());
    assert_eq!(creative.request_id, "id-2");
    assert_eq!(creative.output, "text");
    assert_eq!(creative.mode, "creative");
}

#[test]
fn failures_are_sent_with_status_and_body() {
    let (status, body) = ApiError::new(422, "rule failed: r".to_string()).into_parts();
    assert_eq!(status, 422);
    assert_eq!(body.error, "rule failed: r");
}

#[test]
fn stage_identifiers_are_distinct() {
    let dag = verified_dag(1, 2, "n", 3, false);
    for i in 0..dag.nodes.len() {
        for j in 0..dag.nodes.len() {
            assert_eq!(i == j, dag.nodes[i].id == dag.nodes[j].id);
        }
    }
}

#[test]
fn decided_creative_answers() {
    let allow = decided_creative_response("id", &SafetyAction::Allow, "out".to_string());
    assert_eq!((allow.output.as_str(), allow.mode.as_str()), ("out", "creative"));
    let deny = decided_creative_response(
        "id",
        &SafetyAction::Deny("Blocked content".to_string()),
        "out".to_string(),
    );
    assert_eq!(
        (deny.output.as_str(), deny.mode.as_str()),
        ("request denied: Blocked content", "creative_denied")
    );
    let hold = decided_creative_response(
        "id",
        &SafetyAction::Escalate("why".to_string()),
        "out".to_string(),
    );
    assert_eq!(
        (hold.output.as_str(), hold.mode.as_str()),
        ("request requires escalation/consent: why", "creative_pending")
    );
    assert_eq!(hold.request_id, "id");
}

#[test]
fn decided_verified_answers() {
    let set = AxiomSet { name: "demo".to_string(), version: "1".to_string(), rules: vec![] };
    let sig = || C0Signature::new("p", &set, "out", 1);
    let answer = |action: &SafetyAction, given: bool, signature: C0Signature| {
        decided_verified_response(
            "id",
            action,
            given,
            "out".to_string(),
            signature,
            "root".to_string(),
        )
    };

    let ok = answer(&SafetyAction::Allow, true, sig());
    assert_eq!(ok.output, "out");
    assert_eq!(ok.proof_uri, "zkml://proofs/id");
    assert_eq!(ok.merkle_root, "root");
    assert_eq!(ok.c0_signature.input_hash, sig().input_hash);

    let denied = answer(&SafetyAction::Deny("Verified mode disabled".to_string()), true, sig());
    assert_eq!(denied.output, "request denied: Verified mode disabled");
    assert!(denied.c0_signature.is_empty());
    assert_eq!((denied.proof_uri.as_str(), denied.merkle_root.as_str()), ("", ""));

    let held = answer(&SafetyAction::Escalate("pay".to_string()), true, sig());
    assert_eq!(held.output, "request requires escalation/consent: pay");

    let missing = answer(&SafetyAction::Allow, false, sig());
    assert_eq!(missing.output, "axiom_set is required for verified mode");
    assert!(missing.c0_signature.is_empty());

    let failed = answer(&SafetyAction::Allow, true, C0Signature::empty());
    assert_eq!(failed.output, "verification failed; no output emitted");
    assert_eq!(failed.proof_uri, "");
    assert_eq!(failed.request_id, "id");
}
