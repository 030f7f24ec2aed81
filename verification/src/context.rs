//! From the fixture's fork and block to what the interpreter runs under.

use crate::backend::{Environment, EnvironmentView};
use crate::error::Error;
use crate::types::{Fork, TestEnv};
use crate::vm::{berlin_config, standard_config};
use crate::word::U256;
use evm::standard::Config;
use vstd::prelude::*;

verus! {

/// Whether a configuration exists for `fork`.
pub open spec fn is_supported(fork: Fork) -> bool {
    fork == Fork::Berlin
}

/// The configuration of `fork`, or `UnsupportedFork` where there is none.
pub fn fork_config(fork: Fork) -> (r: Result<Config, Error>)
    ensures
        is_supported(fork) ==> r is Ok && r->Ok_0 == standard_config(fork),
        !is_supported(fork) ==> r is Err && r->Err_0 == Error::UnsupportedFork,
{
    match fork {
        Fork::Berlin => Ok(berlin_config()),
        _ => Err(Error::UnsupportedFork),
    }
}

/// The environment that a fixture's block stands for: the block's own fields, no
/// earlier block hashes, and zero for the base fee and the chain id.
pub open spec fn environment_of(env: TestEnv) -> EnvironmentView {
    EnvironmentView {
        block_hashes: Map::empty(),
        block_number: env.current_number@,
        block_coinbase: env.current_coinbase@,
        block_timestamp: env.current_timestamp@,
        block_difficulty: env.current_difficulty@,
        block_randomness: Some(env.current_random@),
        block_gas_limit: env.current_gas_limit@,
        block_base_fee_per_gas: 0,
        chain_id: 0,
    }
}

/// The environment for the block `env` of a fixture.
pub fn environment(env: &TestEnv) -> (r: Environment)
    ensures
        r@ == environment_of(*env),
        r.block_hashes@.len() == 0,
{
    Environment {
        block_hashes: Vec::new(),
        block_number: env.current_number,
        block_coinbase: env.current_coinbase,
        block_timestamp: env.current_timestamp,
        block_difficulty: env.current_difficulty,
        block_randomness: Some(env.current_random),
        block_gas_limit: env.current_gas_limit,
        block_base_fee_per_gas: U256::zero(),
        chain_id: U256::zero(),
    }
}

} // verus!
