//! The rule engine and the certificate generator.
//!
//! A rule set constrains generated output by tokens that must or must not
//! occur in it, compared without regard to case. The certificate binds the
//! rule set to the output by hashes alone, so that equal inputs always give
//! an equal certificate.

use std::sync::Arc;
use vstd::prelude::*;
use vstd::string::*;
use crate::digest::{
    blake3_bytes,
    blake3_digest,
    blake3_hex,
    blake3_hex_of,
    sha256_hex,
    sha256_hex_of,
};
use crate::model::engine::{generated_view, ModelEngine};
use crate::text::{
    contains_text,
    decimal,
    decimal_string,
    json_array,
    json_array_text,
    json_string,
    json_string_of,
    lowercase,
    text_contains,
    texts,
    to_lowercase,
    utf8,
};

verus! {

/// One rule of a set: tokens that the output must hold, and tokens that it
/// must not hold. A missing list constrains nothing.
#[derive(Debug)]
pub struct AxiomRule {
    pub id: String,
    pub must_contain: Option<Vec<String>>,
    pub must_not_contain: Option<Vec<String>>,
}

/// A named, versioned list of rules, evaluated in their order.
#[derive(Debug)]
pub struct AxiomSet {
    pub name: String,
    pub version: String,
    pub rules: Vec<AxiomRule>,
}

/// What a rule holds.
pub struct AxiomRuleView {
    pub id: Seq<char>,
    pub must_contain: Option<Seq<Seq<char>>>,
    pub must_not_contain: Option<Seq<Seq<char>>>,
}

/// What a rule set holds.
pub struct AxiomSetView {
    pub name: Seq<char>,
    pub version: Seq<char>,
    pub rules: Seq<AxiomRuleView>,
}

/// The texts of an optional token list.
pub open spec fn opt_texts(tokens: Option<Vec<String>>) -> Option<Seq<Seq<char>>> {
    match tokens {
        Some(list) => Some(texts(list@)),
        None => None,
    }
}

impl View for AxiomRule {
    type V = AxiomRuleView;

    open spec fn view(&self) -> AxiomRuleView {
        AxiomRuleView {
            id: self.id@,
            must_contain: opt_texts(self.must_contain),
            must_not_contain: opt_texts(self.must_not_contain),
        }
    }
}

/// What a list of rules holds.
pub open spec fn rule_views(rules: Seq<AxiomRule>) -> Seq<AxiomRuleView> {
    Seq::new(rules.len(), |i: int| rules[i]@)
}

impl View for AxiomSet {
    type V = AxiomSetView;

    open spec fn view(&self) -> AxiomSetView {
        AxiomSetView { name: self.name@, version: self.version@, rules: rule_views(self.rules@) }
    }
}

/// Why a verification did not yield a signed output.
#[derive(Debug)]
pub enum VerificationError {
    InvalidAxiomSet(String),
    RuleFailed(String),
    ModelFailure(String),
}

/// What a verification error holds.
pub enum VerificationErrorView {
    InvalidAxiomSet(Seq<char>),
    RuleFailed(Seq<char>),
    ModelFailure(Seq<char>),
}

impl View for VerificationError {
    type V = VerificationErrorView;

    open spec fn view(&self) -> VerificationErrorView {
        match self {
            VerificationError::InvalidAxiomSet(m) => VerificationErrorView::InvalidAxiomSet(m@),
            VerificationError::RuleFailed(id) => VerificationErrorView::RuleFailed(id@),
            VerificationError::ModelFailure(m) => VerificationErrorView::ModelFailure(m@),
        }
    }
}

/// The message of an error, as shown to a caller.
pub open spec fn error_message(e: VerificationErrorView) -> Seq<char> {
    match e {
        VerificationErrorView::InvalidAxiomSet(m) => "invalid axiom_set: "@ + m,
        VerificationErrorView::RuleFailed(id) => "verification failed for rule: "@ + id,
        VerificationErrorView::ModelFailure(m) => "model error: "@ + m,
    }
}

impl VerificationError {
    /// The message of the error.
    pub fn message(&self) -> (out: String)
        ensures
            out@ == error_message(self@),
    {
        match self {
            VerificationError::InvalidAxiomSet(m) => {
                let mut out = String::from_str("invalid axiom_set: ");
                out.append(m.as_str());
                out
            },
            VerificationError::RuleFailed(id) => {
                let mut out = String::from_str("verification failed for rule: ");
                out.append(id.as_str());
                out
            },
            VerificationError::ModelFailure(m) => {
                let mut out = String::from_str("model error: ");
                out.append(m.as_str());
                out
            },
        }
    }
}

/// Every token occurs in the text, compared as it stands.
pub open spec fn has_all(text: Seq<char>, tokens: Seq<Seq<char>>) -> bool {
    forall|i: int| 0 <= i < tokens.len() ==> contains_text(text, #[trigger] tokens[i])
}

/// No token occurs in the text, compared as it stands.
pub open spec fn has_none(text: Seq<char>, tokens: Seq<Seq<char>>) -> bool {
    forall|i: int| 0 <= i < tokens.len() ==> !contains_text(text, #[trigger] tokens[i])
}

/// The rule holds of the text, text and tokens compared as they stand. A
/// missing list constrains nothing.
pub open spec fn rule_holds(text: Seq<char>, rule: AxiomRuleView) -> bool {
    &&& rule.must_contain matches Some(required) ==> has_all(text, required)
    &&& rule.must_not_contain matches Some(banned) ==> has_none(text, banned)
}

/// `k` is the position of the first rule that does not hold.
pub open spec fn is_first_failure(text: Seq<char>, rules: Seq<AxiomRuleView>, k: int) -> bool {
    &&& 0 <= k < rules.len()
    &&& !rule_holds(text, rules[k])
    &&& forall|j: int| 0 <= j < k ==> rule_holds(text, #[trigger] rules[j])
}

/// The identifier of the first of the first `n` rules that does not hold of
/// the text, if there is one.
pub open spec fn failing_rule_in(text: Seq<char>, rules: Seq<AxiomRuleView>, n: nat) -> Option<
    Seq<char>,
>
    decreases n,
{
    if n == 0 {
        None
    } else {
        match failing_rule_in(text, rules, (n - 1) as nat) {
            Some(id) => Some(id),
            None => if rule_holds(text, rules[n - 1]) {
                None
            } else {
                Some(rules[n - 1].id)
            },
        }
    }
}

/// The tokens, each in lower case.
pub open spec fn lowered_tokens(tokens: Seq<Seq<char>>) -> Seq<Seq<char>> {
    Seq::new(tokens.len(), |i: int| lowercase(tokens[i]))
}

/// The optional tokens, each in lower case.
pub open spec fn lowered_opt_tokens(tokens: Option<Seq<Seq<char>>>) -> Option<Seq<Seq<char>>> {
    match tokens {
        Some(list) => Some(lowered_tokens(list)),
        None => None,
    }
}

/// The rule with its tokens in lower case.
pub open spec fn lowered_rule(rule: AxiomRuleView) -> AxiomRuleView {
    AxiomRuleView {
        id: rule.id,
        must_contain: lowered_opt_tokens(rule.must_contain),
        must_not_contain: lowered_opt_tokens(rule.must_not_contain),
    }
}

/// The rules with their tokens in lower case.
pub open spec fn lowered_rules(rules: Seq<AxiomRuleView>) -> Seq<AxiomRuleView> {
    Seq::new(rules.len(), |i: int| lowered_rule(rules[i]))
}

/// The identifier of the first rule, in declaration order, that does not
/// hold of `output`, output and tokens compared in lower case; `None` when
/// all hold.
pub open spec fn failing_rule(output: Seq<char>, set: AxiomSetView) -> Option<Seq<char>> {
    failing_rule_in(lowercase(output), lowered_rules(set.rules), set.rules.len())
}

/// `failing_rule_in` is `None` exactly when each of the first `n` rules
/// holds, and otherwise names the first that does not.
pub proof fn lemma_failing_rule_in(text: Seq<char>, rules: Seq<AxiomRuleView>, n: nat)
    requires
        n <= rules.len(),
    ensures
        failing_rule_in(text, rules, n) is None <==> forall|j: int|
            0 <= j < n ==> rule_holds(text, #[trigger] rules[j]),
        failing_rule_in(text, rules, n) matches Some(id) ==> exists|k: int|
            k < n && is_first_failure(text, rules, k) && id == rules[k].id,
    decreases n,
{
    if n > 0 {
        lemma_failing_rule_in(text, rules, (n - 1) as nat);
        match failing_rule_in(text, rules, (n - 1) as nat) {
            Some(id) => {
                let k = choose|k: int|
                    k < n - 1 && is_first_failure(text, rules, k) && id == rules[k].id;
                assert(k < n && is_first_failure(text, rules, k) && id == rules[k].id);
                assert(!rule_holds(text, rules[k]));
            },
            None => {
                if !rule_holds(text, rules[n - 1]) {
                    assert(is_first_failure(text, rules, n - 1));
                }
            },
        }
    }
}

/// Evaluation stops at the first violated rule: the outcome is a pass exactly
/// when every rule holds in lower case, and otherwise carries the identifier
/// of the first rule, in declaration order, that does not.
pub proof fn lemma_first_violation_decides(output: Seq<char>, set: AxiomSetView)
    ensures
        failing_rule(output, set) is None <==> forall|j: int|
            0 <= j < set.rules.len() ==> rule_holds(
                lowercase(output),
                lowered_rule(#[trigger] set.rules[j]),
            ),
        failing_rule(output, set) matches Some(id) ==> exists|k: int|
            is_first_failure(lowercase(output), lowered_rules(set.rules), k) && id
                == set.rules[k].id,
{
    let rules = lowered_rules(set.rules);
    lemma_failing_rule_in(lowercase(output), rules, set.rules.len());
    assert forall|j: int| 0 <= j < set.rules.len() implies rules[j] == lowered_rule(
        #[trigger] set.rules[j],
    ) by {}
    if failing_rule(output, set) is None {
        assert forall|j: int| 0 <= j < set.rules.len() implies rule_holds(
            lowercase(output),
            lowered_rule(#[trigger] set.rules[j]),
        ) by {
            assert(rule_holds(lowercase(output), rules[j]));
        }
    } else {
        let id = failing_rule(output, set)->0;
        let k = choose|k: int|
            k < set.rules.len() && is_first_failure(lowercase(output), rules, k) && id
                == rules[k].id;
        assert(is_first_failure(lowercase(output), rules, k) && id == set.rules[k].id);
        assert(!rule_holds(lowercase(output), lowered_rule(set.rules[k])));
    }
}

fn all_present(text: &str, tokens: &Vec<String>) -> (ok: bool)
    ensures
        ok == has_all(text@, texts(tokens@)),
{
    let mut i: usize = 0;
    while i < tokens.len()
        invariant
            i <= tokens@.len(),
            forall|j: int| 0 <= j < i ==> contains_text(text@, tokens@[j]@),
        decreases tokens@.len() - i,
    {
        if !text_contains(text, tokens[i].as_str()) {
            assert(texts(tokens@)[i as int] == tokens@[i as int]@);
            return false;
        }
        i += 1;
    }
    true
}

fn none_present(text: &str, tokens: &Vec<String>) -> (ok: bool)
    ensures
        ok == has_none(text@, texts(tokens@)),
{
    let mut i: usize = 0;
    while i < tokens.len()
        invariant
            i <= tokens@.len(),
            forall|j: int| 0 <= j < i ==> !contains_text(text@, tokens@[j]@),
        decreases tokens@.len() - i,
    {
        if text_contains(text, tokens[i].as_str()) {
            assert(texts(tokens@)[i as int] == tokens@[i as int]@);
            return false;
        }
        i += 1;
    }
    true
}

/// Whether `rule` holds of `text`, text and tokens compared as they stand.
pub fn rule_satisfied(text: &str, rule: &AxiomRule) -> (ok: bool)
    ensures
        ok == rule_holds(text@, rule@),
{
    let required_ok = match &rule.must_contain {
        Some(required) => all_present(text, required),
        None => true,
    };
    if !required_ok {
        return false;
    }
    match &rule.must_not_contain {
        Some(banned) => none_present(text, banned),
        None => true,
    }
}

/// The view of a rule check's outcome.
pub open spec fn check_view(r: Result<(), VerificationError>) -> Result<(), VerificationErrorView> {
    match r {
        Ok(()) => Ok(()),
        Err(e) => Err(e@),
    }
}

/// The outcome for the first failing rule, if there is one.
pub open spec fn outcome_of(failing: Option<Seq<char>>) -> Result<(), VerificationErrorView> {
    match failing {
        None => Ok(()),
        Some(id) => Err(VerificationErrorView::RuleFailed(id)),
    }
}

/// The outcome that the rules prescribe for `output`.
pub open spec fn check_outcome(output: Seq<char>, set: AxiomSetView) -> Result<
    (),
    VerificationErrorView,
> {
    outcome_of(failing_rule(output, set))
}

/// Evaluates rules against a text in declaration order, text and tokens
/// compared as they stand, and stops at the first rule that does not hold.
/// This is the rule engine behind `check_rules`, which hands it the output
/// and the tokens in lower case.
pub fn check_lowered(text: &str, rules: &Vec<AxiomRule>) -> (r: Result<(), VerificationError>)
    ensures
        check_view(r) == outcome_of(failing_rule_in(text@, rule_views(rules@), rules@.len())),
{
    let mut i: usize = 0;
    while i < rules.len()
        invariant
            i <= rules@.len(),
            failing_rule_in(text@, rule_views(rules@), i as nat) is None,
        decreases rules@.len() - i,
    {
        assert(rule_views(rules@)[i as int] == rules@[i as int]@);
        if !rule_satisfied(text, &rules[i]) {
            proof {
                lemma_failure_is_kept(text@, rule_views(rules@), i as nat + 1, rules@.len());
            }
            return Err(VerificationError::RuleFailed(rules[i].id.clone()));
        }
        i += 1;
    }
    Ok(())
}

fn lower_tokens(tokens: &Vec<String>) -> (out: Vec<String>)
    ensures
        texts(out@) == lowered_tokens(texts(tokens@)),
{
    let mut out: Vec<String> = Vec::new();
    let mut i: usize = 0;
    while i < tokens.len()
        invariant
            i <= tokens@.len(),
            out@.len() == i,
            forall|j: int| 0 <= j < i ==> out@[j]@ == lowercase(tokens@[j]@),
        decreases tokens@.len() - i,
    {
        out.push(to_lowercase(tokens[i].as_str()));
        i += 1;
    }
    assert(texts(out@) =~= lowered_tokens(texts(tokens@)));
    out
}

fn lower_opt_tokens(tokens: &Option<Vec<String>>) -> (out: Option<Vec<String>>)
    ensures
        opt_texts(out) == lowered_opt_tokens(opt_texts(*tokens)),
{
    match tokens {
        Some(list) => Some(lower_tokens(list)),
        None => None,
    }
}

/// The rule with its tokens brought to lower case.
pub fn lower_rule(rule: &AxiomRule) -> (out: AxiomRule)
    ensures
        out@ == lowered_rule(rule@),
{
    AxiomRule {
        id: rule.id.clone(),
        must_contain: lower_opt_tokens(&rule.must_contain),
        must_not_contain: lower_opt_tokens(&rule.must_not_contain),
    }
}

/// The rules with their tokens brought to lower case.
pub fn lower_rules(rules: &Vec<AxiomRule>) -> (out: Vec<AxiomRule>)
    ensures
        rule_views(out@) == lowered_rules(rule_views(rules@)),
{
    let mut out: Vec<AxiomRule> = Vec::new();
    let mut i: usize = 0;
    while i < rules.len()
        invariant
            i <= rules@.len(),
            out@.len() == i,
            forall|j: int| 0 <= j < i ==> out@[j]@ == lowered_rule(rules@[j]@),
        decreases rules@.len() - i,
    {
        out.push(lower_rule(&rules[i]));
        i += 1;
    }
    assert(rule_views(out@) =~= lowered_rules(rule_views(rules@)));
    out
}

/// Evaluates the rules against `output` in declaration order, output and
/// tokens compared in lower case, and stops at the first rule that does not
/// hold.
pub fn check_rules(output: &str, axiom_set: &AxiomSet) -> (r: Result<(), VerificationError>)
    ensures
        check_view(r) == check_outcome(output@, axiom_set@),
{
    let lower = to_lowercase(output);
    let lowered = lower_rules(&axiom_set.rules);
    assert(rule_views(lowered@).len() == lowered@.len());
    assert(lowered_rules(axiom_set@.rules).len() == axiom_set@.rules.len());
    check_lowered(lower.as_str(), &lowered)
}

/// A failure found among the first `n` rules is the failure found among the
/// first `m`, for every larger `m`.
proof fn lemma_failure_is_kept(text: Seq<char>, rules: Seq<AxiomRuleView>, n: nat, m: nat)
    requires
        n <= m,
        failing_rule_in(text, rules, n) is Some,
    ensures
        failing_rule_in(text, rules, m) == failing_rule_in(text, rules, n),
    decreases m,
{
    if n < m {
        lemma_failure_is_kept(text, rules, n, (m - 1) as nat);
    }
}

/// The JSON text of a list of tokens: an array of string literals.
pub open spec fn tokens_json(tokens: Seq<Seq<char>>) -> Seq<char> {
    json_array(Seq::new(tokens.len(), |i: int| json_string(tokens[i])))
}

/// The JSON text of an optional list of tokens; `null` when it is missing.
pub open spec fn opt_tokens_json(tokens: Option<Seq<Seq<char>>>) -> Seq<char> {
    match tokens {
        Some(list) => tokens_json(list),
        None => "null"@,
    }
}

/// The JSON text of a rule: an object with the members `id`, `must_contain`
/// and `must_not_contain`, in that order.
pub open spec fn rule_json(rule: AxiomRuleView) -> Seq<char> {
    "{\"id\":"@ + json_string(rule.id) + ",\"must_contain\":"@ + opt_tokens_json(rule.must_contain)
        + ",\"must_not_contain\":"@ + opt_tokens_json(rule.must_not_contain) + "}"@
}

/// The JSON text of a list of rules.
pub open spec fn rules_json(rules: Seq<AxiomRuleView>) -> Seq<char> {
    json_array(Seq::new(rules.len(), |i: int| rule_json(rules[i])))
}

/// The canonical serialisation of a rule set: a JSON object with the members
/// `name`, `version` and `rules`, in that order and without white space.
pub open spec fn axiom_set_json(set: AxiomSetView) -> Seq<char> {
    "{\"name\":"@ + json_string(set.name) + ",\"version\":"@ + json_string(set.version)
        + ",\"rules\":"@ + rules_json(set.rules) + "}"@
}

/// The rule set as a JSON value with its members in the order of their
/// names, which is the form handed to a generator.
pub open spec fn axiom_value_json(set: AxiomSetView) -> Seq<char> {
    "{\"name\":"@ + json_string(set.name) + ",\"rules\":"@ + rules_json(set.rules)
        + ",\"version\":"@ + json_string(set.version) + "}"@
}

fn tokens_json_text(tokens: &Vec<String>) -> (out: String)
    ensures
        out@ == tokens_json(texts(tokens@)),
{
    let mut items: Vec<String> = Vec::new();
    let mut i: usize = 0;
    while i < tokens.len()
        invariant
            i <= tokens@.len(),
            items@.len() == i,
            forall|k: int| 0 <= k < i ==> items@[k]@ == json_string(tokens@[k]@),
        decreases tokens@.len() - i,
    {
        items.push(json_string_of(tokens[i].as_str()));
        i += 1;
    }
    assert(texts(items@) =~= Seq::new(
        texts(tokens@).len(),
        |i: int| json_string(texts(tokens@)[i]),
    ));
    json_array_text(&items)
}

fn opt_tokens_json_text(tokens: &Option<Vec<String>>) -> (out: String)
    ensures
        out@ == opt_tokens_json(opt_texts(*tokens)),
{
    match tokens {
        Some(list) => tokens_json_text(list),
        None => String::from_str("null"),
    }
}

/// Writes the JSON text of a rule.
pub fn rule_json_text(rule: &AxiomRule) -> (out: String)
    ensures
        out@ == rule_json(rule@),
{
    let mut out = String::from_str("{\"id\":");
    out.append(json_string_of(rule.id.as_str()).as_str());
    out.append(",\"must_contain\":");
    out.append(opt_tokens_json_text(&rule.must_contain).as_str());
    out.append(",\"must_not_contain\":");
    out.append(opt_tokens_json_text(&rule.must_not_contain).as_str());
    out.append("}");
    out
}

fn rules_json_text(rules: &Vec<AxiomRule>) -> (out: String)
    ensures
        out@ == rules_json(rule_views(rules@)),
{
    let mut items: Vec<String> = Vec::new();
    let mut i: usize = 0;
    while i < rules.len()
        invariant
            i <= rules@.len(),
            items@.len() == i,
            forall|k: int| 0 <= k < i ==> items@[k]@ == rule_json(rules@[k]@),
        decreases rules@.len() - i,
    {
        items.push(rule_json_text(&rules[i]));
        i += 1;
    }
    let ghost views = rule_views(rules@);
    assert(texts(items@) =~= Seq::new(views.len(), |i: int| rule_json(views[i])));
    json_array_text(&items)
}

/// Writes the canonical serialisation of a rule set.
pub fn axiom_set_json_text(set: &AxiomSet) -> (out: String)
    ensures
        out@ == axiom_set_json(set@),
{
    let mut out = String::from_str("{\"name\":");
    out.append(json_string_of(set.name.as_str()).as_str());
    out.append(",\"version\":");
    out.append(json_string_of(set.version.as_str()).as_str());
    out.append(",\"rules\":");
    out.append(rules_json_text(&set.rules).as_str());
    out.append("}");
    out
}

/// Writes the rule set as a JSON value with its members in the order of
/// their names.
pub fn axiom_value_json_text(set: &AxiomSet) -> (out: String)
    ensures
        out@ == axiom_value_json(set@),
{
    let mut out = String::from_str("{\"name\":");
    out.append(json_string_of(set.name.as_str()).as_str());
    out.append(",\"rules\":");
    out.append(rules_json_text(&set.rules).as_str());
    out.append(",\"version\":");
    out.append(json_string_of(set.version.as_str()).as_str());
    out.append("}");
    out
}

/// The four bytes of a 32-bit number, most significant first.
pub open spec fn be_bytes_u32(v: u32) -> Seq<u8> {
    seq![
        (v / 16777216) as u8,
        (v / 65536 % 256) as u8,
        (v / 256 % 256) as u8,
        (v % 256) as u8,
    ]
}

/// The number that the first eight bytes spell, most significant first.
pub open spec fn be_u64(b: Seq<u8>) -> nat {
    (((((((b[0] as nat * 256 + b[1] as nat) * 256 + b[2] as nat) * 256 + b[3] as nat) * 256
        + b[4] as nat) * 256 + b[5] as nat) * 256 + b[6] as nat) * 256 + b[7] as nat)
}

/// The bound below which every certificate timestamp lies.
pub const TIMESTAMP_BOUND: u64 = 4_110_000_000;

/// The certificate's timestamp: the first eight bytes of BLAKE3 over the
/// prompt, the serialised rule set and the step budget, read as a number and
/// reduced below the bound. It depends on no clock.
pub open spec fn timestamp_of(prompt: Seq<char>, set: AxiomSetView, max_steps: u32) -> int {
    (be_u64(blake3_digest(utf8(prompt) + utf8(axiom_set_json(set)) + be_bytes_u32(max_steps)))
        % 4_110_000_000) as int
}

/// The certificate inside a signature.
#[derive(Debug)]
pub struct ProofCert {
    pub backend: String,
    pub prover: String,
    pub circuit: String,
    pub seal: String,
    pub timestamp_utc: i64,
}

/// The signature that binds an output to the rule set it was checked
/// against.
#[derive(Debug)]
pub struct C0Signature {
    pub input_hash: String,
    pub axiom_hash: String,
    pub state_trace: String,
    pub proof_cert: ProofCert,
}

/// What a proof certificate holds.
pub struct ProofCertView {
    pub backend: Seq<char>,
    pub prover: Seq<char>,
    pub circuit: Seq<char>,
    pub seal: Seq<char>,
    pub timestamp_utc: int,
}

/// What a signature holds.
pub struct C0SignatureView {
    pub input_hash: Seq<char>,
    pub axiom_hash: Seq<char>,
    pub state_trace: Seq<char>,
    pub proof_cert: ProofCertView,
}

impl View for ProofCert {
    type V = ProofCertView;

    open spec fn view(&self) -> ProofCertView {
        ProofCertView {
            backend: self.backend@,
            prover: self.prover@,
            circuit: self.circuit@,
            seal: self.seal@,
            timestamp_utc: self.timestamp_utc as int,
        }
    }
}

impl View for C0Signature {
    type V = C0SignatureView;

    open spec fn view(&self) -> C0SignatureView {
        C0SignatureView {
            input_hash: self.input_hash@,
            axiom_hash: self.axiom_hash@,
            state_trace: self.state_trace@,
            proof_cert: self.proof_cert@,
        }
    }
}

impl Clone for ProofCert {
    fn clone(&self) -> (out: Self)
        ensures
            out@ == self@,
    {
        ProofCert {
            backend: self.backend.clone(),
            prover: self.prover.clone(),
            circuit: self.circuit.clone(),
            seal: self.seal.clone(),
            timestamp_utc: self.timestamp_utc,
        }
    }
}

impl Clone for C0Signature {
    fn clone(&self) -> (out: Self)
        ensures
            out@ == self@,
    {
        C0Signature {
            input_hash: self.input_hash.clone(),
            axiom_hash: self.axiom_hash.clone(),
            state_trace: self.state_trace.clone(),
            proof_cert: self.proof_cert.clone(),
        }
    }
}

/// The text whose hash is the state trace.
pub open spec fn trace_input(axiom_hash: Seq<char>, max_steps: u32, output: Seq<char>) -> Seq<char> {
    "axiom="@ + axiom_hash + "::steps="@ + decimal(max_steps as nat) + "::output="@ + output
}

/// The signature of `output` under a rule set: every field is a hash of the
/// arguments or a fixed label.
pub open spec fn signature_of(
    prompt: Seq<char>,
    set: AxiomSetView,
    output: Seq<char>,
    max_steps: u32,
) -> C0SignatureView {
    let input_hash = sha256_hex(utf8(output));
    let axiom_hash = sha256_hex(utf8(axiom_set_json(set)));
    let state_trace = blake3_hex(utf8(trace_input(axiom_hash, max_steps, output)));
    C0SignatureView {
        input_hash,
        axiom_hash,
        state_trace,
        proof_cert: ProofCertView {
            backend: "lean4"@,
            prover: "ezkl-halo2"@,
            circuit: "axiom_set::"@ + set.name,
            seal: blake3_hex(utf8("lean4+ezkl::"@ + state_trace)),
            timestamp_utc: timestamp_of(prompt, set, max_steps),
        },
    }
}

/// A signature counts as absent when its input hash, its rule-set hash or
/// its seal is empty.
pub open spec fn signature_absent(sig: C0SignatureView) -> bool {
    sig.input_hash.len() == 0 || sig.axiom_hash.len() == 0 || sig.proof_cert.seal.len() == 0
}

/// The signature with every text empty and the timestamp zero.
pub open spec fn empty_signature() -> C0SignatureView {
    C0SignatureView {
        input_hash: Seq::empty(),
        axiom_hash: Seq::empty(),
        state_trace: Seq::empty(),
        proof_cert: ProofCertView {
            backend: Seq::empty(),
            prover: Seq::empty(),
            circuit: Seq::empty(),
            seal: Seq::empty(),
            timestamp_utc: 0,
        },
    }
}

impl C0Signature {
    /// The signature with every text empty and the timestamp zero. It
    /// counts as absent.
    pub fn empty() -> (sig: Self)
        ensures
            sig@ == empty_signature(),
            signature_absent(sig@),
    {
        Self {
            input_hash: String::new(),
            axiom_hash: String::new(),
            state_trace: String::new(),
            proof_cert: ProofCert {
                backend: String::new(),
                prover: String::new(),
                circuit: String::new(),
                seal: String::new(),
                timestamp_utc: 0,
            },
        }
    }

    /// Whether the signature counts as absent.
    pub fn is_empty(&self) -> (absent: bool)
        ensures
            absent == signature_absent(self@),
    {
        self.input_hash.as_str().unicode_len() == 0 || self.axiom_hash.as_str().unicode_len() == 0
            || self.proof_cert.seal.as_str().unicode_len() == 0
    }

    fn deterministic_timestamp(prompt: &str, axiom_json: &str, max_steps: u32) -> (t: i64)
        ensures
            t == (be_u64(blake3_digest(utf8(prompt@) + utf8(axiom_json@) + be_bytes_u32(max_steps)))
                % 4_110_000_000) as int,
            0 <= t < 4_110_000_000,
    {
        let mut buf: Vec<u8> = Vec::new();
        buf.extend_from_slice(prompt.as_bytes());
        buf.extend_from_slice(axiom_json.as_bytes());
        buf.push((max_steps / 16777216) as u8);
        buf.push((max_steps / 65536 % 256) as u8);
        buf.push((max_steps / 256 % 256) as u8);
        buf.push((max_steps % 256) as u8);
        assert(buf@ =~= utf8(prompt@) + utf8(axiom_json@) + be_bytes_u32(max_steps));
        let d = blake3_bytes(buf.as_slice());
        let v0: u64 = d[0] as u64;
        let v1: u64 = v0 * 256 + d[1] as u64;
        let v2: u64 = v1 * 256 + d[2] as u64;
        let v3: u64 = v2 * 256 + d[3] as u64;
        let v4: u64 = v3 * 256 + d[4] as u64;
        let v5: u64 = v4 * 256 + d[5] as u64;
        let v6: u64 = v5 * 256 + d[6] as u64;
        let v7: u64 = v6 * 256 + d[7] as u64;
        (v7 % TIMESTAMP_BOUND) as i64
    }

    /// Signs `output` under `axiom_set`. The result depends on the four
    /// arguments alone, and is never absent.
    pub fn new(prompt: &str, axiom_set: &AxiomSet, output: &str, max_steps: u32) -> (sig: Self)
        ensures
            sig@ == signature_of(prompt@, axiom_set@, output@, max_steps),
            sig@.input_hash.len() == 64,
            sig@.axiom_hash.len() == 64,
            sig@.state_trace.len() == 64,
            sig@.proof_cert.seal.len() == 64,
            !signature_absent(sig@),
            0 <= sig.proof_cert.timestamp_utc < 4_110_000_000,
    {
        let input_hash = sha256_hex_of(output.as_bytes());
        let axiom_json = axiom_set_json_text(axiom_set);
        let axiom_hash = sha256_hex_of(axiom_json.as_str().as_bytes());

        let mut trace = String::from_str("axiom=");
        trace.append(axiom_hash.as_str());
        trace.append("::steps=");
        trace.append(decimal_string(max_steps as u64).as_str());
        trace.append("::output=");
        trace.append(output);
        let state_trace = blake3_hex_of(trace.as_str().as_bytes());

        let mut sealed = String::from_str("lean4+ezkl::");
        sealed.append(state_trace.as_str());
        let seal = blake3_hex_of(sealed.as_str().as_bytes());

        let timestamp = Self::deterministic_timestamp(prompt, axiom_json.as_str(), max_steps);

        let mut circuit = String::from_str("axiom_set::");
        circuit.append(axiom_set.name.as_str());

        C0Signature {
            input_hash,
            axiom_hash,
            state_trace,
            proof_cert: ProofCert {
                backend: String::from_str("lean4"),
                prover: String::from_str("ezkl-halo2"),
                circuit,
                seal,
                timestamp_utc: timestamp,
            },
        }
    }
}

/// Signing is deterministic: two signatures made from the same prompt, rule
/// set, output and step budget are equal, field by field.
pub proof fn lemma_sign_deterministic(
    first: C0Signature,
    second: C0Signature,
    prompt: Seq<char>,
    set: AxiomSetView,
    output: Seq<char>,
    max_steps: u32,
)
    requires
        first@ == signature_of(prompt, set, output, max_steps),
        second@ == signature_of(prompt, set, output, max_steps),
    ensures
        first@ == second@,
{
}

/// The view of a verification's result.
pub open spec fn outcome_view(r: Result<(String, C0Signature), VerificationError>) -> Result<
    (Seq<char>, C0SignatureView),
    VerificationErrorView,
> {
    match r {
        Ok((output, sig)) => Ok((output@, sig@)),
        Err(e) => Err(e@),
    }
}

/// The result of a verification, given what the generator returned: its
/// failure is passed on, an output that breaks a rule fails with that rule's
/// identifier, and any other output is returned with its signature.
pub open spec fn verify_outcome(
    prompt: Seq<char>,
    set: AxiomSetView,
    generated: Result<Seq<char>, Seq<char>>,
    max_steps: u32,
) -> Result<(Seq<char>, C0SignatureView), VerificationErrorView> {
    match generated {
        Err(message) => Err(VerificationErrorView::ModelFailure(message)),
        Ok(output) => match failing_rule(output, set) {
            Some(id) => Err(VerificationErrorView::RuleFailed(id)),
            None => Ok((output, signature_of(prompt, set, output, max_steps))),
        },
    }
}

/// Judges what a generator returned for `prompt` and signs what passes.
pub fn conclude(
    prompt: &str,
    axiom_set: &AxiomSet,
    generated: Result<String, String>,
    max_steps: u32,
) -> (r: Result<(String, C0Signature), VerificationError>)
    ensures
        outcome_view(r) == verify_outcome(prompt@, axiom_set@, generated_view(generated), max_steps),
{
    match generated {
        Err(message) => Err(VerificationError::ModelFailure(message)),
        Ok(output) => {
            match check_rules(output.as_str(), axiom_set) {
                Err(e) => Err(e),
                Ok(()) => {
                    let sig = C0Signature::new(prompt, axiom_set, output.as_str(), max_steps);
                    Ok((output, sig))
                },
            }
        },
    }
}

/// Something that produces an output for a prompt and vouches for it: an
/// output that is returned holds every rule of the set and carries the
/// signature made from it.
pub trait Verifier {
    fn verify(&self, prompt: &str, axiom_set: &AxiomSet, max_steps: u32) -> (r: Result<
        (String, C0Signature),
        VerificationError,
    >)
        ensures
            r matches Ok((output, sig)) ==> failing_rule(output@, axiom_set@) is None && sig@
                == signature_of(prompt@, axiom_set@, output@, max_steps),
    ;
}

/// The verifier that lets a generator write, checks the rules by substring
/// search, and signs by hashing.
pub struct DeterministicVerifier<M: ModelEngine> {
    model: Arc<M>,
}

impl<M: ModelEngine> DeterministicVerifier<M> {
    /// The generator behind the verifier.
    pub closed spec fn model(&self) -> M {
        *self.model
    }

    /// A verifier in front of the given generator.
    pub fn new(model: Arc<M>) -> (verifier: Self)
        ensures
            verifier.model() == *model,
    {
        Self { model }
    }
}

impl<M: ModelEngine> Verifier for DeterministicVerifier<M> {
    /// Asks the generator with the prompt, the rule set as a JSON value and
    /// the step budget, and judges its answer. Whatever the generator
    /// answered to that request, the result is the one that `conclude` gives
    /// for it.
    fn verify(&self, prompt: &str, axiom_set: &AxiomSet, max_steps: u32) -> (r: Result<
        (String, C0Signature),
        VerificationError,
    >)
        ensures
            exists|generated: Result<Seq<char>, Seq<char>>|
                self.model().may_answer(
                    prompt@,
                    axiom_value_json(axiom_set@),
                    max_steps,
                    generated,
                ) && outcome_view(r) == #[trigger] verify_outcome(
                    prompt@,
                    axiom_set@,
                    generated,
                    max_steps,
                ),
    {
        let axiom_value = axiom_value_json_text(axiom_set);
        let generated = self.model.generate_verified(prompt, axiom_value.as_str(), max_steps);
        let ghost g = generated_view(generated);
        let r = conclude(prompt, axiom_set, generated, max_steps);
        assert(self.model().may_answer(prompt@, axiom_value_json(axiom_set@), max_steps, g)
            && outcome_view(r) == verify_outcome(prompt@, axiom_set@, g, max_steps));
        r
    }
}

} // verus!
