use vstd::prelude::*;
use vstd::string::*;
use crate::text::{decimal, decimal_string};

verus! {

/// The prover and the circuit size of a proof engine.
#[derive(Debug)]
pub struct ZkmlConfig {
    pub prover: String,
    pub circuit_size: usize,
}

impl Default for ZkmlConfig {
    fn default() -> (config: Self)
        ensures
            config.prover@ == "ezkl-halo2"@,
            config.circuit_size == 65536,
    {
        Self { prover: String::from_str("ezkl-halo2"), circuit_size: 65536 }
    }
}

/// The text that stands for a proof of `statement`.
pub open spec fn proof_text(prover: Seq<char>, circuit_size: nat, statement: Seq<char>) -> Seq<
    char,
> {
    "zkml_proof(prover="@ + prover + ", n="@ + decimal(circuit_size) + ") for '"@ + statement
        + "'"@
}

/// A stand-in for a proof engine: it describes the proof it would make.
pub struct ZkmlProofEngine {
    pub config: ZkmlConfig,
}

impl ZkmlProofEngine {
    /// An engine with the given configuration.
    pub fn new(config: ZkmlConfig) -> (engine: Self)
        ensures
            engine.config == config,
    {
        Self { config }
    }

    /// The text that stands for a proof of `statement`.
    pub fn prove(&self, statement: &str) -> (out: String)
        ensures
            out@ == proof_text(self.config.prover@, self.config.circuit_size as nat, statement@),
    {
        let mut out = String::from_str("zkml_proof(prover=");
        out.append(self.config.prover.as_str());
        out.append(", n=");
        out.append(decimal_string(self.config.circuit_size as u64).as_str());
        out.append(") for '");
        out.append(statement);
        out.append("'");
        out
    }
}

} // verus!
