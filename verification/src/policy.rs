//! The content policy: which prompts are refused, which need consent, and
//! which modes a request may use.

use vstd::prelude::*;
use vstd::string::*;
use crate::text::{
    contains_text,
    find_first_contained,
    first_contained,
    join,
    join_strings,
    lowercase,
    opt_str_text,
    same_text,
    text_contains,
    texts,
    to_lowercase,
};

verus! {

/// The switches and term lists of the content policy.
#[derive(Debug)]
pub struct SafetyConfig {
    pub allow_network: bool,
    pub allow_verified: bool,
    pub blocklist: Vec<String>,
    pub high_risk_terms: Vec<String>,
}

/// What a policy configuration holds.
pub struct SafetyConfigView {
    pub allow_network: bool,
    pub allow_verified: bool,
    pub blocklist: Seq<Seq<char>>,
    pub high_risk_terms: Seq<Seq<char>>,
}

impl View for SafetyConfig {
    type V = SafetyConfigView;

    open spec fn view(&self) -> SafetyConfigView {
        SafetyConfigView {
            allow_network: self.allow_network,
            allow_verified: self.allow_verified,
            blocklist: texts(self.blocklist@),
            high_risk_terms: texts(self.high_risk_terms@),
        }
    }
}

/// The configuration used where none is given.
pub open spec fn default_config() -> SafetyConfigView {
    SafetyConfigView {
        allow_network: false,
        allow_verified: true,
        blocklist: seq![
            "self-harm"@,
            "bioweapon"@,
            "malware"@,
            "child exploitation"@,
            "terrorism"@,
        ],
        high_risk_terms: seq!["financial advice"@, "medical diagnosis"@, "legal judgment"@],
    }
}

impl Default for SafetyConfig {
    fn default() -> (config: Self)
        ensures
            config@ == default_config(),
    {
        let mut blocklist: Vec<String> = Vec::new();
        blocklist.push(String::from_str("self-harm"));
        blocklist.push(String::from_str("bioweapon"));
        blocklist.push(String::from_str("malware"));
        blocklist.push(String::from_str("child exploitation"));
        blocklist.push(String::from_str("terrorism"));
        let mut high_risk_terms: Vec<String> = Vec::new();
        high_risk_terms.push(String::from_str("financial advice"));
        high_risk_terms.push(String::from_str("medical diagnosis"));
        high_risk_terms.push(String::from_str("legal judgment"));
        let config = Self { allow_network: false, allow_verified: true, blocklist, high_risk_terms };
        assert(config@.blocklist =~= default_config().blocklist);
        assert(config@.high_risk_terms =~= default_config().high_risk_terms);
        config
    }
}

/// Why the policy did not let a request through.
#[derive(Debug)]
pub enum PolicyError {
    Blocked(String),
    VerifiedDisabled,
    NetworkDisabled,
    EscalationRequired(String),
    ConfigLoad(String),
}

/// What a policy error holds.
pub enum PolicyErrorView {
    Blocked(Seq<char>),
    VerifiedDisabled,
    NetworkDisabled,
    EscalationRequired(Seq<char>),
    ConfigLoad(Seq<char>),
}

impl View for PolicyError {
    type V = PolicyErrorView;

    open spec fn view(&self) -> PolicyErrorView {
        match self {
            PolicyError::Blocked(term) => PolicyErrorView::Blocked(term@),
            PolicyError::VerifiedDisabled => PolicyErrorView::VerifiedDisabled,
            PolicyError::NetworkDisabled => PolicyErrorView::NetworkDisabled,
            PolicyError::EscalationRequired(terms) => PolicyErrorView::EscalationRequired(terms@),
            PolicyError::ConfigLoad(message) => PolicyErrorView::ConfigLoad(message@),
        }
    }
}

/// The message of a policy error, as shown to a caller.
pub open spec fn policy_message(e: PolicyErrorView) -> Seq<char> {
    match e {
        PolicyErrorView::Blocked(term) => "blocked content: "@ + term,
        PolicyErrorView::VerifiedDisabled => "verified mode disabled"@,
        PolicyErrorView::NetworkDisabled => "network disabled for this request"@,
        PolicyErrorView::EscalationRequired(_) => "high-risk content requires consent"@,
        PolicyErrorView::ConfigLoad(message) => "failed to load safety config: "@ + message,
    }
}

impl PolicyError {
    /// The message of the error.
    pub fn message(&self) -> (out: String)
        ensures
            out@ == policy_message(self@),
    {
        match self {
            PolicyError::Blocked(term) => {
                let mut out = String::from_str("blocked content: ");
                out.append(term.as_str());
                out
            },
            PolicyError::VerifiedDisabled => String::from_str("verified mode disabled"),
            PolicyError::NetworkDisabled => String::from_str("network disabled for this request"),
            PolicyError::EscalationRequired(_) => String::from_str(
                "high-risk content requires consent",
            ),
            PolicyError::ConfigLoad(message) => {
                let mut out = String::from_str("failed to load safety config: ");
                out.append(message.as_str());
                out
            },
        }
    }
}

/// What the policy found in a prompt that it let through.
#[derive(Debug)]
pub struct PolicyVerdict {
    pub high_risk_terms: Vec<String>,
}

/// The terms that occur in `lower`, in their order.
pub open spec fn occurring(lower: Seq<char>, terms: Seq<Seq<char>>) -> Seq<Seq<char>> {
    terms.filter(|term: Seq<char>| contains_text(lower, term))
}

/// What the policy says of a prompt: the first blocklisted term that occurs
/// in it refuses it; else the high-risk terms that occur in it, if any, call
/// for consent; else it passes with no high-risk term. The prompt is compared
/// in lower case, the terms as they are configured.
pub open spec fn prompt_outcome(prompt: Seq<char>, config: SafetyConfigView) -> Result<
    Seq<Seq<char>>,
    PolicyErrorView,
> {
    let lower = lowercase(prompt);
    match first_contained(lower, config.blocklist) {
        Some(k) => Err(PolicyErrorView::Blocked(config.blocklist[k])),
        None => {
            let risky = occurring(lower, config.high_risk_terms);
            if risky.len() > 0 {
                Err(PolicyErrorView::EscalationRequired(join(risky, ", "@)))
            } else {
                Ok(Seq::empty())
            }
        },
    }
}

/// The view of a prompt check's result.
pub open spec fn verdict_view(r: Result<PolicyVerdict, PolicyError>) -> Result<
    Seq<Seq<char>>,
    PolicyErrorView,
> {
    match r {
        Ok(verdict) => Ok(texts(verdict.high_risk_terms@)),
        Err(e) => Err(e@),
    }
}

/// The view of a permission's result.
pub open spec fn permit_view(r: Result<(), PolicyError>) -> Result<(), PolicyErrorView> {
    match r {
        Ok(()) => Ok(()),
        Err(e) => Err(e@),
    }
}

/// What the policy decides of a request.
#[derive(Debug)]
pub enum SafetyAction {
    Allow,
    Deny(String),
    Escalate(String),
}

/// What a safety decision holds.
pub enum SafetyActionView {
    Allow,
    Deny(Seq<char>),
    Escalate(Seq<char>),
}

impl View for SafetyAction {
    type V = SafetyActionView;

    open spec fn view(&self) -> SafetyActionView {
        match self {
            SafetyAction::Allow => SafetyActionView::Allow,
            SafetyAction::Deny(reason) => SafetyActionView::Deny(reason@),
            SafetyAction::Escalate(reason) => SafetyActionView::Escalate(reason@),
        }
    }
}

/// The decision on a request, by these tests in their order: blocked
/// content, a disabled verified mode, a missing payment, and a remote rule
/// set while the network is off.
pub open spec fn safety_decision(
    config: SafetyConfigView,
    require_payment: bool,
    prompt: Seq<char>,
    mode: Seq<char>,
    axiom_set: Option<Seq<char>>,
    has_payment_token: bool,
    allow_network_request: bool,
    free_local: bool,
) -> SafetyActionView {
    let verified = mode == "verified"@;
    if first_contained(lowercase(prompt), config.blocklist) is Some {
        SafetyActionView::Deny("Blocked content"@)
    } else if verified && !config.allow_verified {
        SafetyActionView::Deny("Verified mode disabled"@)
    } else if verified && require_payment && !free_local && !has_payment_token {
        SafetyActionView::Escalate("Payment required for verified mode"@)
    } else if !(config.allow_network || allow_network_request) && axiom_set is Some
        && contains_text(axiom_set->0, "remote"@) {
        SafetyActionView::Escalate("Network disabled; remote axiom set not allowed"@)
    } else {
        SafetyActionView::Allow
    }
}

/// The content policy under one configuration.
pub struct SafetyPolicy {
    config: SafetyConfig,
}

impl SafetyPolicy {
    /// The policy's configuration.
    pub closed spec fn config(&self) -> SafetyConfigView {
        self.config@
    }

    /// A policy with the given configuration.
    pub fn new(config: SafetyConfig) -> (policy: Self)
        ensures
            policy.config() == config@,
    {
        Self { config }
    }

    /// The policy for what was found where the configuration is kept:
    /// nothing readable gives the default configuration, a configuration
    /// that could not be parsed is an error with the parser's message.
    pub fn from_loaded(loaded: Option<Result<SafetyConfig, String>>) -> (r: Result<
        Self,
        PolicyError,
    >)
        ensures
            match loaded {
                None => r matches Ok(policy) && policy.config() == default_config(),
                Some(Ok(config)) => r matches Ok(policy) && policy.config() == config@,
                Some(Err(message)) => r matches Err(e) && e@ == PolicyErrorView::ConfigLoad(
                    message@,
                ),
            },
    {
        match loaded {
            None => Ok(Self { config: SafetyConfig::default() }),
            Some(Ok(config)) => Ok(Self { config }),
            Some(Err(message)) => Err(PolicyError::ConfigLoad(message)),
        }
    }

    /// Checks a prompt against the blocklist and the high-risk terms.
    pub fn check_prompt(&self, prompt: &str) -> (r: Result<PolicyVerdict, PolicyError>)
        ensures
            verdict_view(r) == prompt_outcome(prompt@, self.config()),
    {
        let lower = to_lowercase(prompt);
        match find_first_contained(lower.as_str(), &self.config.blocklist) {
            Some(k) => {
                return Err(PolicyError::Blocked(self.config.blocklist[k].clone()));
            },
            None => {},
        }
        let terms = &self.config.high_risk_terms;
        let mut found: Vec<String> = Vec::new();
        let mut i: usize = 0;
        while i < terms.len()
            invariant
                i <= terms@.len(),
                texts(found@) == occurring(lower@, texts(terms@).take(i as int)),
            decreases terms@.len() - i,
        {
            proof {
                let cur = texts(terms@).take(i + 1);
                assert(cur.drop_last() =~= texts(terms@).take(i as int));
                assert(cur.last() == terms@[i as int]@);
                reveal(Seq::filter);
            }
            if text_contains(lower.as_str(), terms[i].as_str()) {
                let ghost before = texts(found@);
                found.push(terms[i].clone());
                assert(texts(found@) =~= before.push(terms@[i as int]@));
            }
            i += 1;
        }
        assert(texts(terms@).take(terms@.len() as int) =~= texts(terms@));
        if found.len() > 0 {
            return Err(PolicyError::EscalationRequired(join_strings(&found, ", ")));
        }
        assert(texts(found@) =~= Seq::<Seq<char>>::empty());
        Ok(PolicyVerdict { high_risk_terms: found })
    }

    /// Fails when the verified mode is switched off.
    pub fn ensure_verified_enabled(&self) -> (r: Result<(), PolicyError>)
        ensures
            permit_view(r) == if self.config().allow_verified {
                Ok::<(), PolicyErrorView>(())
            } else {
                Err(PolicyErrorView::VerifiedDisabled)
            },
    {
        if !self.config.allow_verified {
            return Err(PolicyError::VerifiedDisabled);
        }
        Ok(())
    }

    /// Fails when a request asks for the network and the policy forbids it.
    pub fn ensure_network_allowed(&self, request_flag: bool) -> (r: Result<(), PolicyError>)
        ensures
            permit_view(r) == if request_flag && !self.config().allow_network {
                Err(PolicyErrorView::NetworkDisabled)
            } else {
                Ok::<(), PolicyErrorView>(())
            },
    {
        if request_flag && !self.config.allow_network {
            return Err(PolicyError::NetworkDisabled);
        }
        Ok(())
    }

    /// Whether requests may use the network unless they say otherwise.
    pub fn allow_network_by_default(&self) -> (allowed: bool)
        ensures
            allowed == self.config().allow_network,
    {
        self.config.allow_network
    }

    /// Decides whether a request is let through, refused, or held for
    /// consent.
    pub fn evaluate(
        &self,
        require_payment: bool,
        prompt: &str,
        mode: &str,
        axiom_set: Option<&str>,
        payment_token: Option<&str>,
        allow_network_request: bool,
        free_local: bool,
    ) -> (action: SafetyAction)
        ensures
            action@ == safety_decision(
                self.config(),
                require_payment,
                prompt@,
                mode@,
                opt_str_text(axiom_set),
                payment_token is Some,
                allow_network_request,
                free_local,
            ),
    {
        let lower = to_lowercase(prompt);
        if find_first_contained(lower.as_str(), &self.config.blocklist).is_some() {
            return SafetyAction::Deny(String::from_str("Blocked content"));
        }
        let verified = same_text(mode, "verified");
        if verified && !self.config.allow_verified {
            return SafetyAction::Deny(String::from_str("Verified mode disabled"));
        }
        if verified && require_payment && !free_local && payment_token.is_none() {
            return SafetyAction::Escalate(String::from_str("Payment required for verified mode"));
        }
        let network_allowed = self.config.allow_network || allow_network_request;
        if !network_allowed {
            if let Some(text) = axiom_set {
                if text_contains(text, "remote") {
                    return SafetyAction::Escalate(
                        String::from_str("Network disabled; remote axiom set not allowed"),
                    );
                }
            }
        }
        SafetyAction::Allow
    }
}

} // verus!
