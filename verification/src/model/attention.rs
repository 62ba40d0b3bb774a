use vstd::prelude::*;
use vstd::string::*;
use crate::text::{decimal, decimal_string};

verus! {

/// The trace line of an attention head with the given window over `prompt`.
pub open spec fn attend_text(window: nat, prompt: Seq<char>) -> Seq<char> {
    "attn(window="@ + decimal(window) + ") snapshot='"@ + prompt + "'"@
}

/// An attention head with a sliding window.
#[derive(Clone, Copy)]
pub struct AttentionHead {
    window: usize,
}

impl AttentionHead {
    /// The width of the head's sliding window.
    pub closed spec fn window(&self) -> nat {
        self.window as nat
    }

    /// A head with the given window.
    pub fn new(window: usize) -> (head: Self)
        ensures
            head.window() == window,
    {
        Self { window }
    }

    /// The head's trace line for `prompt`.
    pub fn attend(&self, prompt: &str) -> (out: String)
        ensures
            out@ == attend_text(self.window(), prompt@),
    {
        let mut out = String::from_str("attn(window=");
        out.append(decimal_string(self.window as u64).as_str());
        out.append(") snapshot='");
        out.append(prompt);
        out.append("'");
        out
    }
}

} // verus!
