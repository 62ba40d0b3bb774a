//! A stand-in for a hybrid text generator: it reports which of its heads saw
//! the prompt, and is a pure function of its configuration and the prompt.

use vstd::prelude::*;
use vstd::string::*;
use crate::text::{
    debug_list,
    debug_list_of,
    decimal,
    decimal_string,
    join,
    join_strings,
    texts,
};
use super::attention::{attend_text, AttentionHead};
use super::meta_tokens::{injected_text, MetaTokenInjector};
use super::ssm::{step_text, SsmHead};

verus! {

/// How many heads a block has, and how they are set up.
#[derive(Clone, Copy, Debug)]
pub struct HybridBlockConfig {
    pub ssm_heads: usize,
    pub attention_heads: usize,
    pub meta_tokens: usize,
    pub kv_stride: usize,
    pub sliding_window: usize,
}

impl Default for HybridBlockConfig {
    fn default() -> (config: Self)
        ensures
            config.ssm_heads == 8,
            config.attention_heads == 2,
            config.meta_tokens == 8,
            config.kv_stride == 2,
            config.sliding_window == 2048,
    {
        Self { ssm_heads: 8, attention_heads: 2, meta_tokens: 8, kv_stride: 2, sliding_window: 2048 }
    }
}

/// `count` copies of `line`.
pub open spec fn repeated(line: Seq<char>, count: nat) -> Seq<Seq<char>> {
    Seq::new(count, |i: int| line)
}

/// The attention trace lines of a list of windows over `prompt`.
pub open spec fn attention_lines(windows: Seq<nat>, prompt: Seq<char>) -> Seq<Seq<char>> {
    Seq::new(windows.len(), |i: int| attend_text(windows[i], prompt))
}

/// The deterministic output for `prompt`: the prompt is marked for the
/// verified mode, shown to every head, and the traces are fused.
pub open spec fn verified_text(
    meta_tokens: nat,
    kv_stride: nat,
    injector_count: nat,
    ssm_heads: nat,
    windows: Seq<nat>,
    prompt: Seq<char>,
) -> Seq<char> {
    let injected = injected_text(injector_count, prompt, "verified"@);
    "[verified deterministic] meta="@ + decimal(meta_tokens) + " ssm=["@ + join(
        repeated(step_text(injected), ssm_heads),
        " | "@,
    ) + "] attn=["@ + join(attention_lines(windows, injected), " | "@) + "] kv_stride="@ + decimal(
        kv_stride,
    )
}

/// Calls `rand::thread_rng` and `Rng::gen_range` on the range from zero up
/// to, and without, `bound`. Trusted: the number drawn lies in that range.
/// The range must not be empty.
#[verifier::external_body]
fn random_below(bound: u32) -> (n: u32)
    requires
        bound > 0,
    ensures
        n < bound,
{
    rand::Rng::gen_range(&mut rand::thread_rng(), 0..bound)
}

/// A block of state-space and attention heads behind a meta-token
/// injector.
pub struct HybridBlock {
    pub config: HybridBlockConfig,
    ssm_heads: Vec<SsmHead>,
    attention_heads: Vec<AttentionHead>,
    injector: MetaTokenInjector,
}

impl HybridBlock {
    /// The block's configuration.
    pub closed spec fn configured(&self) -> HybridBlockConfig {
        self.config
    }

    /// The number of state-space heads.
    pub closed spec fn ssm_count(&self) -> nat {
        self.ssm_heads@.len()
    }

    /// The windows of the attention heads, in order.
    pub closed spec fn windows(&self) -> Seq<nat> {
        Seq::new(self.attention_heads@.len(), |i: int| self.attention_heads@[i].window())
    }

    /// The number of meta tokens that the block's injector announces.
    pub closed spec fn injector_count(&self) -> nat {
        self.injector.count()
    }

    /// The block is as `new` makes it for `config`: as many heads as the
    /// configuration asks for, each attention head with the configured
    /// window, and an injector for the configured number of meta tokens.
    pub open spec fn built_from(&self, config: HybridBlockConfig) -> bool {
        &&& self.configured() == config
        &&& self.ssm_count() == config.ssm_heads
        &&& self.windows() == Seq::new(
            config.attention_heads as nat,
            |i: int| config.sliding_window as nat,
        )
        &&& self.injector_count() == config.meta_tokens
    }

    /// A block with as many heads as `config` asks for, each attention head
    /// with the configured window.
    pub fn new(config: HybridBlockConfig) -> (block: Self)
        ensures
            block.built_from(config),
    {
        let mut ssm_heads: Vec<SsmHead> = Vec::new();
        let mut i: usize = 0;
        while i < config.ssm_heads
            invariant
                i <= config.ssm_heads,
                ssm_heads@.len() == i,
            decreases config.ssm_heads - i,
        {
            ssm_heads.push(SsmHead::new());
            i += 1;
        }
        let mut attention_heads: Vec<AttentionHead> = Vec::new();
        let mut j: usize = 0;
        while j < config.attention_heads
            invariant
                j <= config.attention_heads,
                attention_heads@.len() == j,
                forall|k: int| 0 <= k < j ==> attention_heads@[k].window() == config.sliding_window,
            decreases config.attention_heads - j,
        {
            attention_heads.push(AttentionHead::new(config.sliding_window));
            j += 1;
        }
        let injector = MetaTokenInjector::new(config.meta_tokens);
        let block = Self { config, ssm_heads, attention_heads, injector };
        assert(block.windows() =~= Seq::new(
            config.attention_heads as nat,
            |i: int| config.sliding_window as nat,
        ));
        block
    }

    fn ssm_trace(&self, injected: &str) -> (out: String)
        ensures
            out@ == join(repeated(step_text(injected@), self.ssm_count()), " | "@),
    {
        let mut lines: Vec<String> = Vec::new();
        let mut i: usize = 0;
        while i < self.ssm_heads.len()
            invariant
                i <= self.ssm_heads@.len(),
                lines@.len() == i,
                forall|k: int| 0 <= k < i ==> lines@[k]@ == step_text(injected@),
            decreases self.ssm_heads@.len() - i,
        {
            lines.push(self.ssm_heads[i].step(injected));
            i += 1;
        }
        assert(texts(lines@) =~= repeated(step_text(injected@), self.ssm_count()));
        join_strings(&lines, " | ")
    }

    fn attention_trace(&self, injected: &str) -> (out: String)
        ensures
            out@ == join(attention_lines(self.windows(), injected@), " | "@),
    {
        let mut lines: Vec<String> = Vec::new();
        let mut j: usize = 0;
        while j < self.attention_heads.len()
            invariant
                j <= self.attention_heads@.len(),
                lines@.len() == j,
                forall|k: int|
                    0 <= k < j ==> lines@[k]@ == attend_text(
                        self.attention_heads@[k].window(),
                        injected@,
                    ),
            decreases self.attention_heads@.len() - j,
        {
            lines.push(self.attention_heads[j].attend(injected));
            j += 1;
        }
        assert(texts(lines@) =~= attention_lines(self.windows(), injected@));
        join_strings(&lines, " | ")
    }

    /// The deterministic output for `prompt`.
    pub fn generate_verified(&self, prompt: &str) -> (out: String)
        ensures
            out@ == verified_text(
                self.configured().meta_tokens as nat,
                self.configured().kv_stride as nat,
                self.injector_count(),
                self.ssm_count(),
                self.windows(),
                prompt@,
            ),
    {
        let injected = self.injector.inject(prompt, "verified");
        let mut out = String::from_str("[verified deterministic] meta=");
        out.append(decimal_string(self.config.meta_tokens as u64).as_str());
        out.append(" ssm=[");
        out.append(self.ssm_trace(injected.as_str()).as_str());
        out.append("] attn=[");
        out.append(self.attention_trace(injected.as_str()).as_str());
        out.append("] kv_stride=");
        out.append(decimal_string(self.config.kv_stride as u64).as_str());
        out
    }

    /// What the block writes in the creative mode for the sample number
    /// `noise`. `temperature` is the temperature as text; the list of media
    /// is shown where it is not empty.
    pub open spec fn creative_text(
        &self,
        prompt: Seq<char>,
        temperature: Seq<char>,
        top_k: nat,
        media: Seq<Seq<char>>,
        noise: nat,
    ) -> Seq<char> {
        let injected = injected_text(self.injector_count(), prompt, "creative"@);
        "[creative fused] meta="@ + decimal(self.configured().meta_tokens as nat) + " ssm=["@ + join(
            repeated(step_text(injected), self.ssm_count()),
            " | "@,
        ) + "] attn=["@ + join(attention_lines(self.windows(), injected), " | "@) + "] temp="@
            + temperature + " top_k="@ + decimal(top_k) + (if media.len() > 0 {
            " media="@ + debug_list(media)
        } else {
            Seq::empty()
        }) + " :: sample_id="@ + decimal(noise)
    }

    /// Writes the creative output for a given sample number.
    pub fn creative_sample(
        &self,
        prompt: &str,
        temperature: &str,
        top_k: usize,
        media: &Vec<String>,
        noise: u32,
    ) -> (out: String)
        ensures
            out@ == self.creative_text(
                prompt@,
                temperature@,
                top_k as nat,
                texts(media@),
                noise as nat,
            ),
    {
        let injected = self.injector.inject(prompt, "creative");
        let mut out = String::from_str("[creative fused] meta=");
        out.append(decimal_string(self.config.meta_tokens as u64).as_str());
        out.append(" ssm=[");
        out.append(self.ssm_trace(injected.as_str()).as_str());
        out.append("] attn=[");
        out.append(self.attention_trace(injected.as_str()).as_str());
        out.append("] temp=");
        out.append(temperature);
        out.append(" top_k=");
        out.append(decimal_string(top_k as u64).as_str());
        let ghost before = out@;
        if media.len() > 0 {
            let list = debug_list_of(media);
            out.append(" media=");
            out.append(list.as_str());
            assert(out@ =~= before + (" media="@ + list@));
        } else {
            assert(out@ =~= before + Seq::<char>::empty());
        }
        out.append(" :: sample_id=");
        out.append(decimal_string(noise as u64).as_str());
        out
    }

    /// Writes a creative output, with a sample number drawn at random below
    /// 9999. Whatever number was drawn, the output is the one that
    /// `creative_sample` writes for it.
    pub fn generate_creative(
        &self,
        prompt: &str,
        temperature: &str,
        top_k: usize,
        media: &Vec<String>,
    ) -> (out: String)
        ensures
            exists|noise: nat|
                noise < 9999 && out@ == #[trigger] self.creative_text(
                    prompt@,
                    temperature@,
                    top_k as nat,
                    texts(media@),
                    noise,
                ),
    {
        let noise: u32 = random_below(9999);
        let out = self.creative_sample(prompt, temperature, top_k, media, noise);
        assert(out@ == self.creative_text(
            prompt@,
            temperature@,
            top_k as nat,
            texts(media@),
            noise as nat,
        ));
        out
    }
}

} // verus!
