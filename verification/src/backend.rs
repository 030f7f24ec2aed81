//! The world state that the interpreter works on: a block environment and a stack of
//! state layers.

use crate::word::{H160, H256, U256};
use vstd::prelude::*;

verus! {

/// What an `Environment` holds, as plain numbers and byte strings.
pub struct EnvironmentView {
    pub block_hashes: Map<nat, Seq<u8>>,
    pub block_number: nat,
    pub block_coinbase: Seq<u8>,
    pub block_timestamp: nat,
    pub block_difficulty: nat,
    pub block_randomness: Option<Seq<u8>>,
    pub block_gas_limit: nat,
    pub block_base_fee_per_gas: nat,
    pub chain_id: nat,
}

/// The block-level parameters that the interpreter can ask for.
#[derive(Debug, PartialEq, Eq)]
pub struct Environment {
    /// Hashes of earlier blocks, each with its block number; where a number occurs
    /// twice, the later hash counts.
    pub block_hashes: Vec<(U256, H256)>,
    pub block_number: U256,
    pub block_coinbase: H160,
    pub block_timestamp: U256,
    pub block_difficulty: U256,
    pub block_randomness: Option<H256>,
    pub block_gas_limit: U256,
    pub block_base_fee_per_gas: U256,
    pub chain_id: U256,
}

/// What an `Account` holds, as plain numbers and byte strings.
pub struct AccountView {
    pub balance: nat,
    pub nonce: nat,
    pub code: Seq<u8>,
    pub storage: Seq<(Seq<u8>, Seq<u8>)>,
    pub original_storage: Seq<(Seq<u8>, Seq<u8>)>,
}

/// One account of a state layer. Both storages are lists of key and value words; where
/// a key occurs twice, the later pair counts.
#[derive(Debug, PartialEq, Eq)]
pub struct Account {
    pub balance: U256,
    pub code: Vec<u8>,
    pub nonce: U256,
    /// The storage as it is now.
    pub storage: Vec<(H256, H256)>,
    /// The storage as it was before the transaction.
    pub original_storage: Vec<(H256, H256)>,
}

/// What a `Log` holds, as byte strings.
pub struct LogView {
    pub address: Seq<u8>,
    pub topics: Seq<Seq<u8>>,
    pub data: Seq<u8>,
}

/// A log record that a contract wrote.
#[derive(Debug, PartialEq, Eq)]
pub struct Log {
    pub address: H160,
    pub topics: Vec<H256>,
    pub data: Vec<u8>,
}

/// What a `Layer` holds.
pub struct LayerView {
    pub state: Seq<(Seq<u8>, AccountView)>,
    pub logs: Seq<LogView>,
    pub suicides: Seq<Seq<u8>>,
    pub hots: Seq<(Seq<u8>, Option<Seq<u8>>)>,
}

/// One layer of state. The accounts are a list of addresses with their accounts; where
/// an address occurs twice, the later account counts.
#[derive(Debug, PartialEq, Eq)]
pub struct Layer {
    pub state: Vec<(H160, Account)>,
    pub logs: Vec<Log>,
    /// Addresses that destroyed themselves.
    pub suicides: Vec<H160>,
    /// Addresses, and storage slots of addresses, that were touched.
    pub hots: Vec<(H160, Option<H256>)>,
}

/// What a `Backend` holds.
pub struct BackendView {
    pub environment: EnvironmentView,
    pub layers: Seq<LayerView>,
}

/// The world state: an environment and a stack of layers, the last one on top.
#[derive(Debug, PartialEq, Eq)]
pub struct Backend {
    pub environment: Environment,
    pub layers: Vec<Layer>,
}

/// The hash that a list of block hashes gives for each block number.
pub open spec fn block_hash_table(entries: Seq<(U256, H256)>) -> Map<nat, Seq<u8>>
    decreases entries.len(),
{
    if entries.len() == 0 {
        Map::empty()
    } else {
        block_hash_table(entries.drop_last()).insert(entries.last().0@, entries.last().1@)
    }
}

/// The value that a storage list gives for each key.
pub open spec fn storage_table(entries: Seq<(Seq<u8>, Seq<u8>)>) -> Map<Seq<u8>, Seq<u8>>
    decreases entries.len(),
{
    if entries.len() == 0 {
        Map::empty()
    } else {
        storage_table(entries.drop_last()).insert(entries.last().0, entries.last().1)
    }
}

/// An account as the interpreter sees it: its storage is a map, and there is no
/// record of what the storage was before.
pub struct StoredAccount {
    pub balance: nat,
    pub nonce: nat,
    pub code: Seq<u8>,
    pub storage: Map<Seq<u8>, Seq<u8>>,
}

/// The state without any account.
pub open spec fn no_accounts() -> Map<Seq<u8>, StoredAccount> {
    Map::empty()
}

/// What the interpreter sees of an account.
pub open spec fn stored(account: AccountView) -> StoredAccount {
    StoredAccount {
        balance: account.balance,
        nonce: account.nonce,
        code: account.code,
        storage: storage_table(account.storage),
    }
}

/// The account that a list of accounts gives for each address.
pub open spec fn account_table(entries: Seq<(Seq<u8>, AccountView)>) -> Map<Seq<u8>, StoredAccount>
    decreases entries.len(),
{
    if entries.len() == 0 {
        no_accounts()
    } else {
        account_table(entries.drop_last()).insert(entries.last().0, stored(entries.last().1))
    }
}

/// The bytes of an optional word.
pub open spec fn optional_word(word: Option<H256>) -> Option<Seq<u8>> {
    match word {
        Some(w) => Some(w@),
        None => None,
    }
}

/// The bytes of each key and value of a storage list.
pub open spec fn storage_view(entries: Seq<(H256, H256)>) -> Seq<(Seq<u8>, Seq<u8>)> {
    Seq::new(entries.len(), |i: int| (entries[i].0@, entries[i].1@))
}

/// The address bytes and the contents of each account of a list.
pub open spec fn state_view(entries: Seq<(H160, Account)>) -> Seq<(Seq<u8>, AccountView)> {
    Seq::new(entries.len(), |i: int| (entries[i].0@, entries[i].1@))
}

impl View for Environment {
    type V = EnvironmentView;

    open spec fn view(&self) -> EnvironmentView {
        EnvironmentView {
            block_hashes: block_hash_table(self.block_hashes@),
            block_number: self.block_number@,
            block_coinbase: self.block_coinbase@,
            block_timestamp: self.block_timestamp@,
            block_difficulty: self.block_difficulty@,
            block_randomness: optional_word(self.block_randomness),
            block_gas_limit: self.block_gas_limit@,
            block_base_fee_per_gas: self.block_base_fee_per_gas@,
            chain_id: self.chain_id@,
        }
    }
}

impl View for Account {
    type V = AccountView;

    open spec fn view(&self) -> AccountView {
        AccountView {
            balance: self.balance@,
            nonce: self.nonce@,
            code: self.code@,
            storage: storage_view(self.storage@),
            original_storage: storage_view(self.original_storage@),
        }
    }
}

impl View for Log {
    type V = LogView;

    open spec fn view(&self) -> LogView {
        LogView {
            address: self.address@,
            topics: Seq::new(self.topics@.len(), |i: int| self.topics@[i]@),
            data: self.data@,
        }
    }
}

impl View for Layer {
    type V = LayerView;

    open spec fn view(&self) -> LayerView {
        LayerView {
            state: state_view(self.state@),
            logs: Seq::new(self.logs@.len(), |i: int| self.logs@[i]@),
            suicides: Seq::new(self.suicides@.len(), |i: int| self.suicides@[i]@),
            hots: Seq::new(
                self.hots@.len(),
                |i: int| (self.hots@[i].0@, optional_word(self.hots@[i].1)),
            ),
        }
    }
}

impl View for Backend {
    type V = BackendView;

    open spec fn view(&self) -> BackendView {
        BackendView {
            environment: self.environment@,
            layers: Seq::new(self.layers@.len(), |i: int| self.layers@[i]@),
        }
    }
}

/// A copy of a list whose items can be copied.
pub fn copy_of<T: Copy>(items: &Vec<T>) -> (r: Vec<T>)
    ensures
        r@ == items@,
{
    let mut r: Vec<T> = Vec::new();
    let mut i: usize = 0;
    while i < items.len()
        invariant
            i <= items.len(),
            r@ == items@.subrange(0, i as int),
        decreases items.len() - i,
    {
        r.push(items[i]);
        assert(r@ =~= items@.subrange(0, i + 1));
        i = i + 1;
    }
    assert(items@.subrange(0, items.len() as int) =~= items@);
    r
}

impl Clone for Environment {
    fn clone(&self) -> (r: Environment)
        ensures
            r@ == self@,
    {
        let r = Environment {
            block_hashes: copy_of(&self.block_hashes),
            block_number: self.block_number,
            block_coinbase: self.block_coinbase,
            block_timestamp: self.block_timestamp,
            block_difficulty: self.block_difficulty,
            block_randomness: self.block_randomness,
            block_gas_limit: self.block_gas_limit,
            block_base_fee_per_gas: self.block_base_fee_per_gas,
            chain_id: self.chain_id,
        };
        r
    }
}

impl Clone for Account {
    fn clone(&self) -> (r: Account)
        ensures
            r@ == self@,
    {
        let r = Account {
            balance: self.balance,
            code: copy_of(&self.code),
            nonce: self.nonce,
            storage: copy_of(&self.storage),
            original_storage: copy_of(&self.original_storage),
        };
        assert(r@.storage =~= self@.storage);
        assert(r@.original_storage =~= self@.original_storage);
        r
    }
}

impl Clone for Log {
    fn clone(&self) -> (r: Log)
        ensures
            r@ == self@,
    {
        let r = Log {
            address: self.address,
            topics: copy_of(&self.topics),
            data: copy_of(&self.data),
        };
        assert(r@.topics =~= self@.topics);
        r
    }
}

impl Clone for Layer {
    fn clone(&self) -> (r: Layer)
        ensures
            r@ == self@,
    {
        let mut state: Vec<(H160, Account)> = Vec::new();
        let mut i: usize = 0;
        while i < self.state.len()
            invariant
                i <= self.state.len(),
                state@.len() == i,
                forall|j: int| 0 <= j < i ==> state@[j].0@ == self.state@[j].0@ && state@[j].1@
                    == self.state@[j].1@,
            decreases self.state.len() - i,
        {
            let account = self.state[i].1.clone();
            state.push((self.state[i].0, account));
            i = i + 1;
        }
        let mut logs: Vec<Log> = Vec::new();
        let mut k: usize = 0;
        while k < self.logs.len()
            invariant
                k <= self.logs.len(),
                logs@.len() == k,
                forall|j: int| 0 <= j < k ==> logs@[j]@ == self.logs@[j]@,
            decreases self.logs.len() - k,
        {
            let log = self.logs[k].clone();
            logs.push(log);
            k = k + 1;
        }
        let r = Layer {
            state,
            logs,
            suicides: copy_of(&self.suicides),
            hots: copy_of(&self.hots),
        };
        assert(r@.state =~= self@.state);
        assert(r@.logs =~= self@.logs);
        assert(r@.suicides =~= self@.suicides);
        assert(r@.hots =~= self@.hots);
        r
    }
}

impl Clone for Backend {
    /// An independent copy: it holds what `self` holds and shares nothing with it.
    fn clone(&self) -> (r: Backend)
        ensures
            r@ == self@,
    {
        let mut layers: Vec<Layer> = Vec::new();
        let mut i: usize = 0;
        while i < self.layers.len()
            invariant
                i <= self.layers.len(),
                layers@.len() == i,
                forall|j: int| 0 <= j < i ==> layers@[j]@ == self.layers@[j]@,
            decreases self.layers.len() - i,
        {
            let layer = self.layers[i].clone();
            layers.push(layer);
            i = i + 1;
        }
        let r = Backend { environment: self.environment.clone(), layers };
        assert(r@.layers =~= self@.layers);
        r
    }
}

/// The starting state over an environment and a list of accounts: one layer without
/// logs, destroyed accounts or touched slots.
pub open spec fn initial_view(
    environment: EnvironmentView,
    state: Seq<(Seq<u8>, AccountView)>,
) -> BackendView {
    BackendView {
        environment,
        layers: seq![
            LayerView { state, logs: Seq::empty(), suicides: Seq::empty(), hots: Seq::empty() },
        ],
    }
}

impl AccountView {
    /// Whether the storage is as it was before the transaction.
    pub open spec fn is_untouched(self) -> bool {
        self.original_storage == self.storage
    }
}

impl LayerView {
    /// Whether every account's storage is as it was before the transaction, and nothing
    /// was logged, destroyed or touched.
    pub open spec fn is_untouched(self) -> bool {
        &&& forall|i: int| 0 <= i < self.state.len() ==> (#[trigger] self.state[i]).1.is_untouched()
        &&& self.logs.len() == 0
        &&& self.suicides.len() == 0
        &&& self.hots.len() == 0
    }
}

impl BackendView {
    /// Whether this is a starting state: one layer, and that one untouched.
    pub open spec fn is_initial(self) -> bool {
        &&& self.layers.len() == 1
        &&& self.layers[0].is_untouched()
    }
}

impl Account {
    /// Whether the storage is as it was before the transaction.
    pub open spec fn is_untouched(&self) -> bool {
        self@.is_untouched()
    }

    /// Tells whether the storage is as it was before the transaction.
    pub fn check_untouched(&self) -> (r: bool)
        ensures
            r == self.is_untouched(),
    {
        if self.storage.len() != self.original_storage.len() {
            assert(self@.storage.len() != self@.original_storage.len());
            return false;
        }
        let mut i: usize = 0;
        while i < self.storage.len()
            invariant
                i <= self.storage.len(),
                self.storage.len() == self.original_storage.len(),
                forall|j: int| 0 <= j < i ==> self@.storage[j] == self@.original_storage[j],
            decreases self.storage.len() - i,
        {
            let now = &self.storage[i];
            let before = &self.original_storage[i];
            if !now.0.same(&before.0) || !now.1.same(&before.1) {
                assert(self@.storage[i as int] != self@.original_storage[i as int]);
                return false;
            }
            i = i + 1;
        }
        assert(self@.storage =~= self@.original_storage);
        true
    }
}

impl Backend {
    /// Whether this is a starting state: one layer, and that one untouched.
    pub open spec fn is_initial(&self) -> bool {
        self@.is_initial()
    }

    /// Tells whether this is a starting state.
    pub fn check_initial(&self) -> (r: bool)
        ensures
            r == self.is_initial(),
    {
        if self.layers.len() != 1 {
            return false;
        }
        let layer = &self.layers[0];
        if layer.logs.len() != 0 || layer.suicides.len() != 0 || layer.hots.len() != 0 {
            return false;
        }
        let mut i: usize = 0;
        while i < layer.state.len()
            invariant
                i <= layer.state.len(),
                self.layers@.len() == 1,
                *layer == self.layers@[0],
                layer.logs@.len() == 0,
                layer.suicides@.len() == 0,
                layer.hots@.len() == 0,
                forall|j: int| 0 <= j < i ==> (#[trigger] layer@.state[j]).1.is_untouched(),
            decreases layer.state.len() - i,
        {
            if !layer.state[i].1.check_untouched() {
                assert(!layer@.state[i as int].1.is_untouched());
                return false;
            }
            i = i + 1;
        }
        true
    }

    /// The starting state over `environment` and the accounts `state`: a single layer
    /// without logs, destroyed accounts or touched slots.
    pub fn new(environment: Environment, state: Vec<(H160, Account)>) -> (r: Backend)
        ensures
            r.environment == environment,
            r.layers@.len() == 1,
            r.layers@[0].state == state,
            r@ == initial_view(environment@, state_view(state@)),
    {
        let mut layers: Vec<Layer> = Vec::new();
        layers.push(Layer { state, logs: Vec::new(), suicides: Vec::new(), hots: Vec::new() });
        let r = Backend { environment, layers };
        proof {
            assert(r@.layers[0].logs =~= Seq::empty());
            assert(r@.layers[0].suicides =~= Seq::empty());
            assert(r@.layers[0].hots =~= Seq::empty());
            assert(r@.layers =~= initial_view(environment@, state_view(state@)).layers);
        }
        r
    }
}

} // verus!
