//! A request-processing node's verifiable ledger: a rule engine and certificate
//! generator for produced output, a per-request provenance tree, and a
//! hash-chained audit log, with the small collaborators that feed them.

pub mod digest;
pub mod text;
pub mod dag;
pub mod model;
pub mod verification;
pub mod audit;
pub mod policy;
pub mod payment;
pub mod api;

use vstd::prelude::*;
use crate::model::engine::{configured_output, default_block_config, HybridModelEngine, ModelEngine};
use crate::verification::axiom_checker::{
    axiom_value_json,
    axiom_value_json_text,
    conclude,
    empty_signature,
    outcome_view,
    verify_outcome,
    AxiomSet,
    AxiomSetView,
    C0Signature,
    C0SignatureView,
    VerificationError,
    VerificationErrorView,
};

verus! {

/// What an engine with the default configuration writes for a prompt under
/// a rule set, judged and signed.
pub open spec fn default_outcome(prompt: Seq<char>, set: AxiomSetView, max_steps: u32) -> Result<
    (Seq<char>, C0SignatureView),
    VerificationErrorView,
> {
    verify_outcome(
        prompt,
        set,
        Ok(configured_output(default_block_config(), prompt, axiom_value_json(set), max_steps)),
        max_steps,
    )
}

/// Generates an output for `prompt` with an engine of the default
/// configuration, checks it against the rule set and signs it.
pub fn generate_verified_output(prompt: &str, axiom_set: &AxiomSet, max_steps: u32) -> (r: Result<
    (String, C0Signature),
    VerificationError,
>)
    ensures
        outcome_view(r) == default_outcome(prompt@, axiom_set@, max_steps),
{
    let engine = HybridModelEngine::default();
    let axiom_value = axiom_value_json_text(axiom_set);
    let generated = engine.generate_verified(prompt, axiom_value.as_str(), max_steps);
    conclude(prompt, axiom_set, generated, max_steps)
}

/// The rule set used where a caller supplies none that can be read: the
/// set named `default`, version `0.0.0`, without rules.
pub fn fallback_axiom_set() -> (set: AxiomSet)
    ensures
        set@ == (AxiomSetView { name: "default"@, version: "0.0.0"@, rules: Seq::empty() }),
{
    let set = AxiomSet {
        name: "default".to_owned(),
        version: "0.0.0".to_owned(),
        rules: Vec::new(),
    };
    assert(set@.rules =~= Seq::empty());
    set
}

/// Generates as `generate_verified_output` does and never fails: where the
/// verification fails, the result is the text `fallback` with the empty
/// signature.
pub fn generate_or_fallback(
    prompt: &str,
    axiom_set: &AxiomSet,
    max_steps: u32,
    fallback: &str,
) -> (out: (String, C0Signature))
    ensures
        (out.0@, out.1@) == match default_outcome(prompt@, axiom_set@, max_steps) {
            Ok(pair) => pair,
            Err(_) => (fallback@, empty_signature()),
        },
{
    match generate_verified_output(prompt, axiom_set, max_steps) {
        Ok(pair) => pair,
        Err(_) => (fallback.to_owned(), C0Signature::empty()),
    }
}

} // verus!

