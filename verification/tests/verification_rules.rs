use axiomhive::model::engine::HybridModelEngine;
use axiomhive::verification::axiom_checker::{
    axiom_set_json_text, axiom_value_json_text, check_lowered, check_rules, conclude, lower_rule,
    lower_rules, rule_satisfied, AxiomRule, AxiomSet, C0Signature, DeterministicVerifier,
    VerificationError, Verifier,
};
use std::sync::Arc;

fn rule(id: &str, must: Option<&[&str]>, must_not: Option<&[&str]>) -> AxiomRule {
    let list = |items: &[&str]| items.iter().map(|s| s.to_string()).collect::<Vec<_>>();
    AxiomRule {
        id: id.to_string(),
        must_contain: must.map(list),
        must_not_contain: must_not.map(list),
    }
}

fn demo(rules: Vec<AxiomRule>) -> AxiomSet {
    AxiomSet { name: "demo".to_string(), version: "1".to_string(), rules }
}

fn sha256_hex(text: &str) -> String {
    hex::encode(<sha2::Sha256 as sha2::Digest>::digest(text.as_bytes()))
}

fn blake3_hex(text: &str) -> String {
    blake3::hash(text.as_bytes()).to_hex().to_string()
}

#[test]
fn verified_request_succeeds_when_rules_met() {
    let verifier = DeterministicVerifier::new(Arc::new(HybridModelEngine::default()));
    let parsed = demo(vec![rule("contains-hello", Some(&["verified"]), None)]);
    let result = verifier.verify("hello", &parsed, 32).unwrap();
    assert!(result.0.contains("verified"));
}

#[test]
fn missing_required_token_fails() {
    let verifier = DeterministicVerifier::new(Arc::new(HybridModelEngine::default()));
    let parsed = demo(vec![rule("needs-token", Some(&["nonexistent"]), None)]);
    let err = verifier.verify("hello", &parsed, 32).unwrap_err();
    assert!(format!("{err:?}").contains("needs-token"));
}

#[test]
fn banned_token_triggers_failure() {
    let verifier = DeterministicVerifier::new(Arc::new(HybridModelEngine::default()));
    let parsed = demo(vec![rule("ban-verified", None, Some(&["verified deterministic"]))]);
    let err = verifier.verify("hello", &parsed, 32).unwrap_err();
    assert!(format!("{err:?}").contains("ban-verified"));
}

#[test]
fn required_token_passes_or_fails_with_rule_id() {
    let set = demo(vec![rule("r1", Some(&["hello"]), None)]);
    assert!(check_rules("hello world", &set).is_ok());
    match check_rules("goodbye", &set) {
        Err(VerificationError::RuleFailed(id)) => assert_eq!(id, "r1"),
        other => panic!("unexpected outcome: {other:?}"),
    }
}

#[test]
fn first_violated_rule_is_reported() {
    let set = demo(vec![
        rule("ok", Some(&["a"]), None),
        rule("first-bad", Some(&["a", "zzz"]), None),
        rule("second-bad", None, Some(&["a"])),
    ]);
    match check_rules("a b c", &set) {
        Err(VerificationError::RuleFailed(id)) => assert_eq!(id, "first-bad"),
        other => panic!("unexpected outcome: {other:?}"),
    }
    let banned_first = demo(vec![
        rule("ban", Some(&["a"]), Some(&["x", "b"])),
        rule("need", Some(&["zzz"]), None),
    ]);
    match check_rules("a b c", &banned_first) {
        Err(VerificationError::RuleFailed(id)) => assert_eq!(id, "ban"),
        other => panic!("unexpected outcome: {other:?}"),
    }
}

#[test]
fn rules_compare_without_regard_to_case() {
    let set = demo(vec![rule("r", Some(&["HeLLo"]), Some(&["FORBIDDEN"]))]);
    assert!(check_rules("Well, HELLO there", &set).is_ok());
    assert!(check_rules("hello, this is Forbidden", &set).is_err());
    assert!(rule_satisfied("hello", &lower_rule(&rule("r", Some(&["HELLO"]), None))));
    assert!(!rule_satisfied("hello", &rule("r", Some(&["HELLO"]), None)));
    assert!(!rule_satisfied("HELLO", &rule("r", Some(&["hello"]), None)));
}

#[test]
fn lowered_rules_are_compared_as_they_stand() {
    let rules = vec![rule("r1", Some(&["hello"]), None)];
    assert!(check_lowered("hello world", &rules).is_ok());
    match check_lowered("goodbye", &rules) {
        Err(VerificationError::RuleFailed(id)) => assert_eq!(id, "r1"),
        other => panic!("unexpected outcome: {other:?}"),
    }
    assert!(check_lowered("HELLO WORLD", &rules).is_err());
    assert!(check_lowered("anything", &vec![]).is_ok());
    let banned = vec![rule("ok", Some(&["a"]), None), rule("ban", None, Some(&["b", "c"]))];
    match check_lowered("a c", &banned) {
        Err(VerificationError::RuleFailed(id)) => assert_eq!(id, "ban"),
        other => panic!("unexpected outcome: {other:?}"),
    }
}

#[test]
fn lowering_keeps_identifiers_and_shape() {
    let lowered = lower_rules(&vec![
        rule("Keep-ID", Some(&["HeLLo", "wORLD"]), None),
        rule("b", None, Some(&["ÄB", ""])),
        rule("c", Some(&[]), Some(&[])),
    ]);
    assert_eq!(lowered.len(), 3);
    assert_eq!(lowered[0].id, "Keep-ID");
    assert_eq!(lowered[0].must_contain, Some(vec!["hello".to_string(), "world".to_string()]));
    assert_eq!(lowered[0].must_not_contain, None);
    assert_eq!(lowered[1].must_contain, None);
    assert_eq!(lowered[1].must_not_contain, Some(vec!["äb".to_string(), String::new()]));
    assert_eq!(lowered[2].must_contain, Some(vec![]));
    assert_eq!(lowered[2].must_not_contain, Some(vec![]));
}

#[test]
fn empty_and_unconstrained_rules_pass() {
    assert!(check_rules("", &demo(vec![])).is_ok());
    assert!(check_rules("anything", &demo(vec![rule("free", None, None)])).is_ok());
    assert!(check_rules("anything", &demo(vec![rule("none", Some(&[]), Some(&[]))])).is_ok());
    assert!(check_rules("anything", &demo(vec![rule("blank", Some(&[""]), None)])).is_ok());
    assert!(check_rules("anything", &demo(vec![rule("blank", None, Some(&[""]))])).is_err());
}

#[test]
fn rule_set_serialisation_is_canonical() {
    let set = demo(vec![
        rule("contains-hello", Some(&["hello", "wor\"ld"]), None),
        rule("free", None, Some(&[])),
    ]);
    assert_eq!(
        axiom_set_json_text(&set),
        "{\"name\":\"demo\",\"version\":\"1\",\"rules\":[{\"id\":\"contains-hello\",\"must_contain\":[\"hello\",\"wor\\\"ld\"],\"must_not_contain\":null},{\"id\":\"free\",\"must_contain\":null,\"must_not_contain\":[]}]}"
    );
    assert_eq!(
        axiom_value_json_text(&demo(vec![])),
        "{\"name\":\"demo\",\"rules\":[],\"version\":\"1\"}"
    );
    let parsed: serde_json::Value = serde_json::from_str(&axiom_value_json_text(&set)).unwrap();
    assert_eq!(parsed.to_string(), axiom_value_json_text(&set));
}

#[test]
fn signature_fields_are_hashes_of_the_inputs() {
    let set = demo(vec![rule("r", Some(&["hello"]), None)]);
    let sig = C0Signature::new("prompt", &set, "hello world", 32);
    let axiom_json = "{\"name\":\"demo\",\"version\":\"1\",\"rules\":[{\"id\":\"r\",\"must_contain\":[\"hello\"],\"must_not_contain\":null}]}";
    let axiom_hash = sha256_hex(axiom_json);
    assert_eq!(sig.input_hash, sha256_hex("hello world"));
    assert_eq!(
        sig.input_hash,
        "b94d27b9934d3e08a52e52d7da7dabfac484efe37a5380ee9088f7ace2efcde9"
    );
    assert_eq!(sig.axiom_hash, axiom_hash);
    let trace = blake3_hex(&format!("axiom={axiom_hash}::steps=32::output=hello world"));
    assert_eq!(sig.state_trace, trace);
    assert_eq!(sig.proof_cert.seal, blake3_hex(&format!("lean4+ezkl::{trace}")));
    assert_eq!(sig.proof_cert.backend, "lean4");
    assert_eq!(sig.proof_cert.prover, "ezkl-halo2");
    assert_eq!(sig.proof_cert.circuit, "axiom_set::demo");

    let mut hasher = blake3::Hasher::new();
    hasher.update(b"prompt");
    hasher.update(axiom_json.as_bytes());
    hasher.update(&32u32.to_be_bytes());
    let digest = hasher.finalize();
    let mut head = [0u8; 8];
    head.copy_from_slice(&digest.as_bytes()[..8]);
    let expected = (u64::from_be_bytes(head) % 4_110_000_000) as i64;
    assert_eq!(sig.proof_cert.timestamp_utc, expected);
    assert!(!sig.is_empty());
    for hash in [&sig.input_hash, &sig.axiom_hash, &sig.state_trace, &sig.proof_cert.seal] {
        assert_eq!(hash.len(), 64);
    }
}

#[test]
fn signing_twice_gives_identical_signatures() {
    let set = demo(vec![rule("r", Some(&["x"]), Some(&["y"]))]);
    let a = C0Signature::new("p", &set, "out", 4_000_000_000);
    let b = C0Signature::new("p", &set, "out", 4_000_000_000);
    assert_eq!(format!("{a:?}"), format!("{b:?}"));
    assert_eq!(a.proof_cert.timestamp_utc, b.proof_cert.timestamp_utc);
    assert!(a.proof_cert.timestamp_utc >= 0 && a.proof_cert.timestamp_utc < 4_110_000_000);
    let c = C0Signature::new("p", &set, "out", 7);
    assert_ne!(a.state_trace, c.state_trace);
    assert_eq!(a.input_hash, c.input_hash);
    let copy = a.clone();
    assert_eq!(format!("{a:?}"), format!("{copy:?}"));
}

#[test]
fn empty_signature_counts_as_absent() {
    let sig = C0Signature::empty();
    assert!(sig.is_empty());
    assert_eq!(sig.input_hash, "");
    assert_eq!(sig.proof_cert.timestamp_utc, 0);
    let mut partial = C0Signature::new("p", &demo(vec![]), "o", 1);
    assert!(!partial.is_empty());
    partial.proof_cert.seal = String::new();
    assert!(partial.is_empty());
}

#[test]
fn conclude_passes_on_generator_failure() {
    let set = demo(vec![rule("r", Some(&["hello"]), None)]);
    match conclude("p", &set, Err("boom".to_string()), 1) {
        Err(VerificationError::ModelFailure(m)) => assert_eq!(m, "boom"),
        other => panic!("unexpected outcome: {other:?}"),
    }
    match conclude("p", &set, Ok("nothing".to_string()), 1) {
        Err(VerificationError::RuleFailed(id)) => assert_eq!(id, "r"),
        other => panic!("unexpected outcome: {other:?}"),
    }
    let (output, sig) = conclude("p", &set, Ok("Hello".to_string()), 1).unwrap();
    assert_eq!(output, "Hello");
    assert_eq!(sig.input_hash, sha256_hex("Hello"));
}

#[test]
fn error_messages_name_the_cause() {
    assert_eq!(
        VerificationError::InvalidAxiomSet("bad".to_string()).message(),
        "invalid axiom_set: bad"
    );
    assert_eq!(
        VerificationError::RuleFailed("r1".to_string()).message(),
        "verification failed for rule: r1"
    );
    assert_eq!(VerificationError::ModelFailure("m".to_string()).message(), "model error: m");
}
