use vstd::prelude::*;
use vstd::string::*;

verus! {

/// The trace line of a state-space head over `prompt`.
pub open spec fn step_text(prompt: Seq<char>) -> Seq<char> {
    "ssm(step) '"@ + prompt + "' -> linear_state"@
}

/// A state-space head.
#[derive(Clone, Copy)]
pub struct SsmHead;

impl SsmHead {
    /// A head.
    pub fn new() -> Self {
        Self
    }

    /// The head's trace line for `prompt`.
    pub fn step(&self, prompt: &str) -> (out: String)
        ensures
            out@ == step_text(prompt@),
    {
        let mut out = String::from_str("ssm(step) '");
        out.append(prompt);
        out.append("' -> linear_state");
        out
    }
}

} // verus!
