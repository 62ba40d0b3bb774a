use axiomhive::model::attention::AttentionHead;
use axiomhive::model::engine::{HybridModelEngine, ModelEngine};
use axiomhive::model::hybrid_block::{HybridBlock, HybridBlockConfig};
use axiomhive::model::meta_tokens::MetaTokenInjector;
use axiomhive::model::ssm::SsmHead;
use axiomhive::verification::zkml::{ZkmlConfig, ZkmlProofEngine};

#[test]
fn verified_generation_is_deterministic() {
    let engine = HybridModelEngine::default();
    let axiom_set = "{\"name\":\"demo\",\"rules\":[],\"version\":\"1\"}";
    let a = engine.generate_verified("repeat", axiom_set, 42).unwrap();
    let b = engine.generate_verified("repeat", axiom_set, 42).unwrap();
    assert_eq!(a, b);
}

#[test]
fn verified_generation_ends_with_seed_of_inputs() {
    let engine = HybridModelEngine::new(HybridBlockConfig {
        ssm_heads: 1,
        attention_heads: 1,
        meta_tokens: 3,
        kv_stride: 4,
        sliding_window: 16,
    });
    let axiom_set = "{}";
    let out = engine.generate_verified("hi", axiom_set, 7).unwrap();
    let fingerprint = blake3::hash(axiom_set.as_bytes()).to_hex().to_string();
    let mut hasher = blake3::Hasher::new();
    hasher.update(b"hi");
    hasher.update(fingerprint.as_bytes());
    hasher.update(b"7");
    let seed = hex::encode(hasher.finalize().as_bytes());
    let injected = "[meta:3 tokens injected for verified] hi";
    assert_eq!(
        out,
        format!(
            "[verified deterministic] meta=3 ssm=[ssm(step) '{injected}' -> linear_state] attn=[attn(window=16) snapshot='{injected}'] kv_stride=4 seed={seed}"
        )
    );
    assert_eq!(HybridModelEngine::seed_from_inputs(&[]), blake3::hash(b"").as_bytes().to_vec());
    assert_ne!(out, engine.generate_verified("hi", axiom_set, 8).unwrap());
}

#[test]
fn heads_report_what_they_saw() {
    assert_eq!(AttentionHead::new(2048).attend("p"), "attn(window=2048) snapshot='p'");
    assert_eq!(AttentionHead::new(0).attend(""), "attn(window=0) snapshot=''");
    assert_eq!(SsmHead::new().step("p"), "ssm(step) 'p' -> linear_state");
    assert_eq!(
        MetaTokenInjector::new(16).inject("prompt", "verified"),
        "[meta:16 tokens injected for verified] prompt"
    );
}

#[test]
fn default_block_fuses_eight_and_two_heads() {
    let config = HybridBlockConfig::default();
    assert_eq!(
        (config.ssm_heads, config.attention_heads, config.meta_tokens, config.kv_stride, config.sliding_window),
        (8, 2, 8, 2, 2048)
    );
    let block = HybridBlock::new(config);
    let out = block.generate_verified("x");
    let injected = "[meta:8 tokens injected for verified] x";
    let ssm = vec![format!("ssm(step) '{injected}' -> linear_state"); 8].join(" | ");
    let attn = vec![format!("attn(window=2048) snapshot='{injected}'"); 2].join(" | ");
    assert_eq!(
        out,
        format!("[verified deterministic] meta=8 ssm=[{ssm}] attn=[{attn}] kv_stride=2")
    );
    let none = HybridBlock::new(HybridBlockConfig {
        ssm_heads: 0,
        attention_heads: 0,
        meta_tokens: 0,
        kv_stride: 0,
        sliding_window: 0,
    });
    assert_eq!(
        none.generate_verified("x"),
        "[verified deterministic] meta=0 ssm=[] attn=[] kv_stride=0"
    );
}

#[test]
fn proof_engine_describes_statement() {
    let config = ZkmlConfig::default();
    assert_eq!(config.prover, "ezkl-halo2");
    assert_eq!(config.circuit_size, 65536);
    let engine = ZkmlProofEngine::new(config);
    assert_eq!(engine.prove("x > 0"), "zkml_proof(prover=ezkl-halo2, n=65536) for 'x > 0'");
}

#[test]
fn creative_sample_is_fused_from_its_inputs() {
    let block = HybridBlock::new(HybridBlockConfig {
        ssm_heads: 2,
        attention_heads: 1,
        meta_tokens: 8,
        kv_stride: 2,
        sliding_window: 4,
    });
    let injected = "[meta:8 tokens injected for creative] hi";
    let line = format!("ssm(step) '{injected}' -> linear_state");
    let head = format!(
        "[creative fused] meta=8 ssm=[{line} | {line}] attn=[attn(window=4) snapshot='{injected}'] temp=0.5 top_k=16"
    );
    let media = vec!["text".to_string(), "a\"b".to_string()];
    assert_eq!(
        block.creative_sample("hi", "0.5", 16, &media, 42),
        format!("{head} media=[\"text\", \"a\\\"b\"] :: sample_id=42")
    );
    assert_eq!(
        block.creative_sample("hi", "0.5", 16, &vec![], 0),
        format!("{head} :: sample_id=0")
    );
    for _ in 0..50 {
        let out = block.generate_creative("hi", "0.5", 16, &vec![]);
        let noise: u32 = out.strip_prefix(&format!("{head} :: sample_id=")).unwrap().parse().unwrap();
        assert!(noise < 9999);
    }
}
