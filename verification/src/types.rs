//! The test fixture: a starting world state, a block context, one transaction, and
//! what is expected after it.

use crate::word::{H160, H256, U256};
use vstd::prelude::*;

verus! {

/// A named version of the protocol rules.
#[derive(Clone, Copy, Debug, PartialEq, Eq, Structural)]
pub enum Fork {
    Frontier,
    Homestead,
    EIP150,
    EIP158,
    Byzantium,
    Constantinople,
    ConstantinopleFix,
    Istanbul,
    Berlin,
    London,
    Merge,
    Shanghai,
    Cancun,
}

/// The block that the transaction runs in.
#[derive(Clone, Debug, PartialEq, Eq)]
pub struct TestEnv {
    pub current_coinbase: H160,
    pub current_difficulty: U256,
    pub current_gas_limit: U256,
    pub current_number: U256,
    pub current_random: H256,
    pub current_timestamp: U256,
}

/// One account of the starting state. Storage is a list of key and value pairs; where
/// a key occurs twice, the later pair counts.
#[derive(Clone, Debug, PartialEq, Eq)]
pub struct TestPreState {
    pub balance: U256,
    pub code: Vec<u8>,
    pub nonce: U256,
    pub storage: Vec<(U256, U256)>,
}

/// The transaction. Without a recipient it creates a contract from `data`.
#[derive(Clone, Debug, PartialEq, Eq)]
pub struct TestTransaction {
    pub data: Vec<u8>,
    pub gas_limit: U256,
    pub gas_price: U256,
    pub sender: H160,
    pub to: Option<H160>,
    pub value: U256,
}

/// What the fixture expects after the transaction.
#[derive(Clone, Debug, PartialEq, Eq)]
pub struct TestPostState {
    /// The fingerprint of the final state.
    pub hash: H256,
    /// Set where the transaction is expected to fail; the text names the failure.
    pub expect_exception: Option<String>,
}

/// A test fixture. The starting state is a list of addresses with their accounts;
/// where an address occurs twice, the later account counts.
#[derive(Clone, Debug, PartialEq, Eq)]
pub struct Test {
    pub fork: Fork,
    pub env: TestEnv,
    pub pre: Vec<(H160, TestPreState)>,
    pub transaction: TestTransaction,
    pub post: TestPostState,
}

} // verus!
