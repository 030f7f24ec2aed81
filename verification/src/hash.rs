//! The fingerprint of a state: the root of the trie that holds every account under the
//! hash of its address.

use crate::backend::{storage_view, AccountView, Backend};
use crate::word::{be_value, H160, H256, U256};
use primitive_types::U256 as Uint;
use sha3::Digest;
use vstd::prelude::*;

verus! {

/// The Keccak-256 digest of `data`.
pub uninterp spec fn keccak(data: Seq<u8>) -> Seq<u8>;

/// The RLP encoding of the integer `value`.
pub uninterp spec fn rlp_of_uint(value: nat) -> Seq<u8>;

/// The RLP encoding of the list of an account's nonce, balance, storage root and code
/// hash.
pub uninterp spec fn rlp_of_account(
    nonce: nat,
    balance: nat,
    storage_root: Seq<u8>,
    code_hash: Seq<u8>,
) -> Seq<u8>;

/// The root of the trie that holds each value of `entries` under the Keccak-256 digest
/// of its key.
pub uninterp spec fn trie_root(entries: Seq<(Seq<u8>, Seq<u8>)>) -> Seq<u8>;

/// The Keccak-256 digest of `data`.
///
/// Trusted: calls `sha3::Keccak256::digest`, whose result depends on the bytes alone.
/// The contract gives the result a name.
#[verifier::external_body]
fn keccak256(data: &Vec<u8>) -> (hash: H256)
    ensures
        hash@ == keccak(data@),
{
    H256(sha3::Keccak256::digest(data).into())
}

/// The RLP encoding of `value`.
///
/// Trusted: calls `rlp::encode` on a 256-bit integer, whose result depends on the
/// integer alone. The contract gives the result a name.
#[verifier::external_body]
fn rlp_uint(value: &U256) -> (bytes: Vec<u8>)
    ensures
        bytes@ == rlp_of_uint(value@),
{
    rlp::encode(&Uint(value.0)).to_vec()
}

/// The RLP encoding of an account for the state trie.
///
/// Trusted: opens a list of four items with `rlp::RlpStream::new_list`, appends the
/// nonce, the balance, the storage root and the code hash with `append`, and takes
/// the bytes with `out`. The result depends on the four values alone. The contract
/// gives it a name.
#[verifier::external_body]
fn rlp_account(nonce: &U256, balance: &U256, storage_root: &H256, code_hash: &H256) -> (bytes: Vec<u8>)
    ensures
        bytes@ == rlp_of_account(nonce@, balance@, storage_root@, code_hash@),
{
    let mut stream = rlp::RlpStream::new_list(4);
    stream.append(&Uint(nonce.0)).append(&Uint(balance.0));
    stream.append(&primitive_types::H256(storage_root.0));
    stream.append(&primitive_types::H256(code_hash.0));
    stream.out().to_vec()
}

/// The root of the trie of `entries`, each value under the digest of its key.
///
/// Trusted: calls `ethereum::util::sec_trie_root`, whose result depends on the list of
/// keys and values alone. The contract gives the result a name.
#[verifier::external_body]
fn sec_trie_root(entries: &Vec<(Vec<u8>, Vec<u8>)>) -> (root: H256)
    ensures
        root@ == trie_root(trie_entries(entries@)),
{
    H256(ethereum::util::sec_trie_root(entries.iter().map(|e| (&e.0, &e.1))).0)
}

/// The keys and values of a list of trie entries, as byte strings.
pub open spec fn trie_entries(entries: Seq<(Vec<u8>, Vec<u8>)>) -> Seq<(Seq<u8>, Seq<u8>)> {
    Seq::new(entries.len(), |i: int| (entries[i].0@, entries[i].1@))
}

/// The entry of the storage trie for one slot: the key, and the RLP encoding of the
/// integer that the value word spells.
pub open spec fn storage_leaf(slot: (Seq<u8>, Seq<u8>)) -> (Seq<u8>, Seq<u8>) {
    (slot.0, rlp_of_uint(be_value(slot.1)))
}

/// The root of an account's storage trie.
pub open spec fn storage_root_of(storage: Seq<(Seq<u8>, Seq<u8>)>) -> Seq<u8> {
    trie_root(Seq::new(storage.len(), |i: int| storage_leaf(storage[i])))
}

/// The entry of the state trie for one account: the address, and the RLP encoding of
/// the nonce, the balance, the storage root and the digest of the code.
pub open spec fn account_leaf(entry: (Seq<u8>, AccountView)) -> (Seq<u8>, Seq<u8>) {
    (
        entry.0,
        rlp_of_account(
            entry.1.nonce,
            entry.1.balance,
            storage_root_of(entry.1.storage),
            keccak(entry.1.code),
        ),
    )
}

/// The fingerprint of the accounts `state`.
pub open spec fn state_root_of(state: Seq<(Seq<u8>, AccountView)>) -> Seq<u8> {
    trie_root(Seq::new(state.len(), |i: int| account_leaf(state[i])))
}

/// The bytes of a word, as a list.
fn word_bytes(word: &H256) -> (bytes: Vec<u8>)
    ensures
        bytes@ == word@,
{
    let mut bytes: Vec<u8> = Vec::new();
    let mut i: usize = 0;
    while i < 32
        invariant
            i <= 32,
            bytes@ == word@.subrange(0, i as int),
        decreases 32 - i,
    {
        bytes.push(word.0[i]);
        assert(bytes@ =~= word@.subrange(0, i + 1));
        i = i + 1;
    }
    assert(word@.subrange(0, 32) =~= word@);
    bytes
}

/// The bytes of an address, as a list.
fn address_bytes(address: &H160) -> (bytes: Vec<u8>)
    ensures
        bytes@ == address@,
{
    let mut bytes: Vec<u8> = Vec::new();
    let mut i: usize = 0;
    while i < 20
        invariant
            i <= 20,
            bytes@ == address@.subrange(0, i as int),
        decreases 20 - i,
    {
        bytes.push(address.0[i]);
        assert(bytes@ =~= address@.subrange(0, i + 1));
        i = i + 1;
    }
    assert(address@.subrange(0, 20) =~= address@);
    bytes
}

/// The root of the storage trie of an account with the storage `storage`.
pub fn storage_root(storage: &Vec<(H256, H256)>) -> (root: H256)
    ensures
        root@ == storage_root_of(storage_view(storage@)),
{
    let mut entries: Vec<(Vec<u8>, Vec<u8>)> = Vec::new();
    let mut i: usize = 0;
    while i < storage.len()
        invariant
            i <= storage.len(),
            entries@.len() == i,
            forall|j: int|
                0 <= j < i ==> (#[trigger] entries@[j]).0@ == storage@[j].0@ && entries@[j].1@
                    == rlp_of_uint(be_value(storage@[j].1@)),
        decreases storage.len() - i,
    {
        let value = storage[i].1.to_uint();
        entries.push((word_bytes(&storage[i].0), rlp_uint(&value)));
        i = i + 1;
    }
    assert(trie_entries(entries@) =~= Seq::new(
        storage@.len(),
        |i: int| storage_leaf(storage_view(storage@)[i]),
    ));
    sec_trie_root(&entries)
}

/// The fingerprint of the accounts of the first layer of `backend`.
pub fn state_root(backend: &Backend) -> (root: H256)
    requires
        backend.layers@.len() > 0,
    ensures
        root@ == state_root_of(backend@.layers[0].state),
{
    let state = &backend.layers[0].state;
    let ghost accounts = backend@.layers[0].state;
    let mut entries: Vec<(Vec<u8>, Vec<u8>)> = Vec::new();
    let mut i: usize = 0;
    while i < state.len()
        invariant
            i <= state.len(),
            entries@.len() == i,
            accounts == crate::backend::state_view(state@),
            forall|j: int|
                0 <= j < i ==> (#[trigger] entries@[j]).0@ == account_leaf(accounts[j]).0
                    && entries@[j].1@ == account_leaf(accounts[j]).1,
        decreases state.len() - i,
    {
        let account = &state[i].1;
        let root = storage_root(&account.storage);
        let code_hash = keccak256(&account.code);
        let leaf = rlp_account(&account.nonce, &account.balance, &root, &code_hash);
        entries.push((address_bytes(&state[i].0), leaf));
        i = i + 1;
    }
    assert(trie_entries(entries@) =~= Seq::new(accounts.len(), |i: int| account_leaf(accounts[i])));
    sec_trie_root(&entries)
}

} // verus!
