pub mod attention;
pub mod engine;
pub mod hybrid_block;
pub mod meta_tokens;
pub mod ssm;
