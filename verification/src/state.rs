//! From the fixture's starting state to the accounts of the first state layer.

use crate::backend::{copy_of, state_view, Account, AccountView};
use crate::types::TestPreState;
use crate::word::{be_bytes, H160, H256, U256};
use vstd::prelude::*;

verus! {

/// The storage of a fixture account with every key and value as a 32-byte word, most
/// significant byte first, in the fixture's order.
pub open spec fn materialized_storage(storage: Seq<(U256, U256)>) -> Seq<(Seq<u8>, Seq<u8>)> {
    Seq::new(storage.len(), |i: int| (be_bytes(storage[i].0@, 32), be_bytes(storage[i].1@, 32)))
}

/// The account that a fixture account stands for: balance, nonce and code as they are,
/// and the converted storage both as the storage and as the original storage.
pub open spec fn materialized_account(account: TestPreState) -> AccountView {
    AccountView {
        balance: account.balance@,
        nonce: account.nonce@,
        code: account.code@,
        storage: materialized_storage(account.storage@),
        original_storage: materialized_storage(account.storage@),
    }
}

/// The accounts that a fixture's starting state stands for, in the fixture's order.
pub open spec fn materialized(pre: Seq<(H160, TestPreState)>) -> Seq<(Seq<u8>, AccountView)> {
    Seq::new(pre.len(), |i: int| (pre[i].0@, materialized_account(pre[i].1)))
}

/// The storage of a fixture account, converted word by word.
pub fn materialize_storage(storage: &Vec<(U256, U256)>) -> (words: Vec<(H256, H256)>)
    ensures
        crate::backend::storage_view(words@) == materialized_storage(storage@),
{
    let mut words: Vec<(H256, H256)> = Vec::new();
    let mut i: usize = 0;
    while i < storage.len()
        invariant
            i <= storage.len(),
            words@.len() == i,
            forall|j: int|
                0 <= j < i ==> (#[trigger] words@[j]).0@ == be_bytes(storage@[j].0@, 32)
                    && words@[j].1@ == be_bytes(storage@[j].1@, 32),
        decreases storage.len() - i,
    {
        let key = storage[i].0.to_word();
        let value = storage[i].1.to_word();
        words.push((key, value));
        i = i + 1;
    }
    assert(crate::backend::storage_view(words@) =~= materialized_storage(storage@));
    words
}

/// The account that one fixture account stands for.
pub fn materialize_account(account: &TestPreState) -> (r: Account)
    ensures
        r@ == materialized_account(*account),
        r.is_untouched(),
{
    let storage = materialize_storage(&account.storage);
    let original_storage = copy_of(&storage);
    Account {
        balance: account.balance,
        code: copy_of(&account.code),
        nonce: account.nonce,
        storage,
        original_storage,
    }
}

/// The accounts of the first state layer for the starting state `pre` of a fixture.
/// Each account keeps its address, balance, nonce and code; its storage is converted
/// to words and stands both as the storage and as the original storage.
pub fn materialize(pre: &Vec<(H160, TestPreState)>) -> (state: Vec<(H160, Account)>)
    ensures
        state_view(state@) == materialized(pre@),
        forall|i: int| 0 <= i < state@.len() ==> (#[trigger] state@[i]).1.is_untouched(),
{
    let mut state: Vec<(H160, Account)> = Vec::new();
    let mut i: usize = 0;
    while i < pre.len()
        invariant
            i <= pre.len(),
            state@.len() == i,
            forall|j: int|
                0 <= j < i ==> (#[trigger] state@[j]).0@ == pre@[j].0@ && state@[j].1@
                    == materialized_account(pre@[j].1) && state@[j].1.is_untouched(),
        decreases pre.len() - i,
    {
        let account = materialize_account(&pre[i].1);
        state.push((pre[i].0, account));
        i = i + 1;
    }
    assert(state_view(state@) =~= materialized(pre@));
    state
}

} // verus!
