use vstd::prelude::*;
use vstd::string::*;
use crate::text::{decimal, decimal_string};

verus! {

/// `prompt` behind the note that `count` meta tokens were injected for `mode`.
pub open spec fn injected_text(count: nat, prompt: Seq<char>, mode: Seq<char>) -> Seq<char> {
    "[meta:"@ + decimal(count) + " tokens injected for "@ + mode + "] "@ + prompt
}

/// Marks a prompt with the number of meta tokens injected for a mode.
pub struct MetaTokenInjector {
    count: usize,
}

impl MetaTokenInjector {
    /// The number of meta tokens that the injector announces.
    pub closed spec fn count(&self) -> nat {
        self.count as nat
    }

    /// An injector that announces `count` meta tokens.
    pub fn new(count: usize) -> (injector: Self)
        ensures
            injector.count() == count,
    {
        Self { count }
    }

    /// The prompt behind the injection note for `mode`.
    pub fn inject(&self, prompt: &str, mode: &str) -> (out: String)
        ensures
            out@ == injected_text(self.count(), prompt@, mode@),
    {
        let mut out = String::from_str("[meta:");
        out.append(decimal_string(self.count as u64).as_str());
        out.append(" tokens injected for ");
        out.append(mode);
        out.append("] ");
        out.append(prompt);
        out
    }
}

} // verus!
