//! The generation stand-in behind the verifier.

use vstd::prelude::*;
use vstd::string::*;
use crate::digest::{blake3_bytes, blake3_digest, blake3_hex, blake3_hex_of, hex_lower, hex_string};
use crate::text::{decimal, decimal_string, utf8};
use super::hybrid_block::{verified_text, HybridBlock, HybridBlockConfig};

verus! {

/// The view of what a generator returned.
pub open spec fn generated_view(g: Result<String, String>) -> Result<Seq<char>, Seq<char>> {
    match g {
        Ok(output) => Ok(output@),
        Err(message) => Err(message@),
    }
}

/// A text generator for the verified mode. `axiom_set` is the rule set as
/// JSON text; an `Err` carries the generator's message.
pub trait ModelEngine {
    /// Whether `answer` is an answer that the generator may give to the
    /// request made of `prompt`, `axiom_set` and `max_steps`.
    spec fn may_answer(
        &self,
        prompt: Seq<char>,
        axiom_set: Seq<char>,
        max_steps: u32,
        answer: Result<Seq<char>, Seq<char>>,
    ) -> bool;

    /// Generates for a request. The answer is one that the generator may
    /// give to this request.
    fn generate_verified(&self, prompt: &str, axiom_set: &str, max_steps: u32) -> (r: Result<
        String,
        String,
    >)
        ensures
            self.may_answer(prompt@, axiom_set@, max_steps, generated_view(r)),
    ;
}

/// The seed for a list of input parts: BLAKE3 over the parts' bytes, one
/// after another.
pub open spec fn seed_of(parts: Seq<Seq<char>>) -> Seq<u8> {
    blake3_digest(parts_bytes(parts))
}

/// The UTF-8 bytes of the parts, one after another.
pub open spec fn parts_bytes(parts: Seq<Seq<char>>) -> Seq<u8>
    decreases parts.len(),
{
    if parts.len() == 0 {
        Seq::empty()
    } else {
        parts_bytes(parts.drop_last()) + utf8(parts.last())
    }
}

/// The texts of a list of string slices.
pub open spec fn slice_texts(parts: Seq<&str>) -> Seq<Seq<char>> {
    Seq::new(parts.len(), |i: int| parts[i]@)
}

/// The configuration of an engine made by `default`.
pub open spec fn default_block_config() -> HybridBlockConfig {
    HybridBlockConfig {
        ssm_heads: 8,
        attention_heads: 2,
        meta_tokens: 8,
        kv_stride: 2,
        sliding_window: 2048,
    }
}

/// What an engine made for `config` generates in the verified mode: the
/// output of a block made for `config`, then the seed of the inputs in
/// hexadecimal.
pub open spec fn configured_output(
    config: HybridBlockConfig,
    prompt: Seq<char>,
    axiom_set: Seq<char>,
    max_steps: u32,
) -> Seq<char> {
    let fingerprint = blake3_hex(utf8(axiom_set));
    verified_text(
        config.meta_tokens as nat,
        config.kv_stride as nat,
        config.meta_tokens as nat,
        config.ssm_heads as nat,
        Seq::new(config.attention_heads as nat, |i: int| config.sliding_window as nat),
        prompt,
    ) + " seed="@ + hex_lower(seed_of(seq![prompt, fingerprint, decimal(max_steps as nat)]))
}

/// The generator made of one hybrid block.
pub struct HybridModelEngine {
    block: HybridBlock,
}

impl Default for HybridModelEngine {
    fn default() -> (engine: Self)
        ensures
            engine.block().built_from(default_block_config()),
    {
        Self { block: HybridBlock::new(HybridBlockConfig::default()) }
    }
}

impl HybridModelEngine {
    /// The block that generates for this engine.
    pub closed spec fn block(&self) -> HybridBlock {
        self.block
    }

    /// An engine whose block is made for `config`.
    pub fn new(config: HybridBlockConfig) -> (engine: Self)
        ensures
            engine.block().built_from(config),
    {
        Self { block: HybridBlock::new(config) }
    }

    /// The seed for a list of input parts.
    pub fn seed_from_inputs(parts: &[&str]) -> (seed: Vec<u8>)
        ensures
            seed@ == seed_of(slice_texts(parts@)),
            seed@.len() == 32,
    {
        let mut buf: Vec<u8> = Vec::new();
        let mut i: usize = 0;
        while i < parts.len()
            invariant
                i <= parts@.len(),
                buf@ == parts_bytes(slice_texts(parts@).take(i as int)),
            decreases parts@.len() - i,
        {
            proof {
                let cur = slice_texts(parts@).take(i + 1);
                assert(cur.drop_last() =~= slice_texts(parts@).take(i as int));
                assert(cur.last() == parts@[i as int]@);
            }
            let ghost before = buf@;
            buf.extend_from_slice(parts[i].as_bytes());
            assert(buf@ =~= before + utf8(parts@[i as int]@));
            i += 1;
        }
        assert(slice_texts(parts@).take(parts@.len() as int) =~= slice_texts(parts@));
        blake3_bytes(buf.as_slice())
    }

    /// What the engine generates in the verified mode: the block's output
    /// for the prompt, then the seed of the inputs in hexadecimal.
    pub open spec fn verified_output(
        &self,
        prompt: Seq<char>,
        axiom_set: Seq<char>,
        max_steps: u32,
    ) -> Seq<char> {
        let fingerprint = blake3_hex(utf8(axiom_set));
        let block = self.block();
        verified_text(
            block.configured().meta_tokens as nat,
            block.configured().kv_stride as nat,
            block.injector_count(),
            block.ssm_count(),
            block.windows(),
            prompt,
        ) + " seed="@ + hex_lower(seed_of(seq![prompt, fingerprint, decimal(max_steps as nat)]))
    }
}

impl ModelEngine for HybridModelEngine {
    /// The engine has one answer to each request: its verified output.
    open spec fn may_answer(
        &self,
        prompt: Seq<char>,
        axiom_set: Seq<char>,
        max_steps: u32,
        answer: Result<Seq<char>, Seq<char>>,
    ) -> bool {
        answer == Ok::<Seq<char>, Seq<char>>(self.verified_output(prompt, axiom_set, max_steps))
    }

    fn generate_verified(&self, prompt: &str, axiom_set: &str, max_steps: u32) -> (r: Result<
        String,
        String,
    >)
        ensures
            r matches Ok(out) && out@ == self.verified_output(prompt@, axiom_set@, max_steps),
    {
        let fingerprint = blake3_hex_of(axiom_set.as_bytes());
        let steps = decimal_string(max_steps as u64);
        let parts: [&str; 3] = [prompt, fingerprint.as_str(), steps.as_str()];
        let seed = Self::seed_from_inputs(parts.as_slice());
        assert(slice_texts(parts@) =~= seq![prompt@, fingerprint@, steps@]);
        let mut out = self.block.generate_verified(prompt);
        out.append(" seed=");
        out.append(hex_string(seed.as_slice()).as_str());
        Ok(out)
    }
}

} // verus!
