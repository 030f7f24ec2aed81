//! Accounts in the order of their addresses: the one list that stands for a map of
//! accounts.

use crate::backend::{account_table, no_accounts, storage_table, storage_view, stored};
use crate::backend::{AccountView, StoredAccount};
use crate::word::{bytes_below, H160, H256, U256};
use vstd::prelude::*;

verus! {

/// Whether the keys of `entries` ascend as byte strings, so that none occurs twice.
pub open spec fn ascending<V>(entries: Seq<(Seq<u8>, V)>) -> bool {
    forall|i: int, j: int|
        0 <= i < j < entries.len() ==> bytes_below(
            (#[trigger] entries[i]).0,
            (#[trigger] entries[j]).0,
        )
}

/// The value that `entries` give for each key, the later entry counting where a key
/// occurs twice.
pub open spec fn table<V>(entries: Seq<(Seq<u8>, V)>) -> Map<Seq<u8>, V>
    decreases entries.len(),
{
    if entries.len() == 0 {
        Map::empty()
    } else {
        table(entries.drop_last()).insert(entries.last().0, entries.last().1)
    }
}

/// Each account of a list as the interpreter sees it.
pub open spec fn stored_entries(state: Seq<(Seq<u8>, AccountView)>) -> Seq<(Seq<u8>, StoredAccount)> {
    Seq::new(state.len(), |i: int| (state[i].0, stored(state[i].1)))
}

/// One account as the interpreter's store hands it out. The store keeps one storage
/// for an account, and no record of what the storage was before.
#[derive(Debug, PartialEq, Eq)]
pub struct StoredEntry {
    pub address: H160,
    pub balance: U256,
    pub nonce: U256,
    pub code: Vec<u8>,
    pub storage: Vec<(H256, H256)>,
}

/// The account that an entry of the store stands for in a starting state: its storage
/// is also its original storage.
pub open spec fn entry_view(entry: StoredEntry) -> (Seq<u8>, AccountView) {
    (
        entry.address@,
        AccountView {
            balance: entry.balance@,
            nonce: entry.nonce@,
            code: entry.code@,
            storage: storage_view(entry.storage@),
            original_storage: storage_view(entry.storage@),
        },
    )
}

/// The accounts that the entries of a store stand for.
pub open spec fn entry_views(entries: Seq<StoredEntry>) -> Seq<(Seq<u8>, AccountView)> {
    Seq::new(entries.len(), |i: int| entry_view(entries[i]))
}

/// Whether `state` lists the accounts of `accounts` in order: by ascending address, each
/// with its storage by ascending key, and with that storage as its original storage.
pub open spec fn is_listing(
    state: Seq<(Seq<u8>, AccountView)>,
    accounts: Map<Seq<u8>, StoredAccount>,
) -> bool {
    &&& account_table(state) == accounts
    &&& ascending(state)
    &&& forall|i: int|
        0 <= i < state.len() ==> ascending((#[trigger] state[i]).1.storage)
            && state[i].1.original_storage == state[i].1.storage
}

/// The accounts of `accounts` in order, where they can be listed.
pub open spec fn listing(accounts: Map<Seq<u8>, StoredAccount>) -> Seq<(Seq<u8>, AccountView)> {
    choose|state: Seq<(Seq<u8>, AccountView)>| is_listing(state, accounts)
}

/// No byte string comes before itself.
pub proof fn lemma_below_irreflexive(a: Seq<u8>)
    ensures
        !bytes_below(a, a),
    decreases a.len(),
{
    if a.len() > 0 {
        lemma_below_irreflexive(a.subrange(1, a.len() as int));
    }
}

/// What comes before something that comes before `c` comes before `c`.
pub proof fn lemma_below_transitive(a: Seq<u8>, b: Seq<u8>, c: Seq<u8>)
    requires
        bytes_below(a, b),
        bytes_below(b, c),
    ensures
        bytes_below(a, c),
    decreases a.len(),
{
    if a.len() > 0 && a[0] == b[0] && b[0] == c[0] {
        lemma_below_transitive(
            a.subrange(1, a.len() as int),
            b.subrange(1, b.len() as int),
            c.subrange(1, c.len() as int),
        );
    }
}

/// A key is in the table of a list exactly if an entry of the list has it.
proof fn lemma_table_keys<V>(entries: Seq<(Seq<u8>, V)>, key: Seq<u8>)
    ensures
        table(entries).contains_key(key) <==> exists|i: int|
            0 <= i < entries.len() && (#[trigger] entries[i]).0 == key,
    decreases entries.len(),
{
    if entries.len() > 0 {
        let init = entries.drop_last();
        lemma_table_keys(init, key);
        if table(entries).contains_key(key) {
            if entries.last().0 == key {
                assert(entries[entries.len() - 1].0 == key);
            } else {
                let i = choose|i: int| 0 <= i < init.len() && (#[trigger] init[i]).0 == key;
                assert(entries[i].0 == key);
            }
        }
        if exists|i: int| 0 <= i < entries.len() && (#[trigger] entries[i]).0 == key {
            let i = choose|i: int| 0 <= i < entries.len() && (#[trigger] entries[i]).0 == key;
            if i < entries.len() - 1 {
                assert(init[i].0 == key);
            }
        }
    }
}

/// The last key of an ascending list is not among the keys before it, so the table of
/// the list without its last entry is the table of the list without that key.
proof fn lemma_table_without_last<V>(entries: Seq<(Seq<u8>, V)>)
    requires
        ascending(entries),
        entries.len() > 0,
    ensures
        ascending(entries.drop_last()),
        table(entries).contains_key(entries.last().0),
        table(entries)[entries.last().0] == entries.last().1,
        table(entries.drop_last()) == table(entries).remove(entries.last().0),
{
    let init = entries.drop_last();
    let key = entries.last().0;
    assert forall|i: int, j: int| 0 <= i < j < init.len() implies bytes_below(
        (#[trigger] init[i]).0,
        (#[trigger] init[j]).0,
    ) by {
        assert(bytes_below(entries[i].0, entries[j].0));
    }
    lemma_table_keys(init, key);
    if table(init).contains_key(key) {
        let i = choose|i: int| 0 <= i < init.len() && (#[trigger] init[i]).0 == key;
        assert(bytes_below(entries[i].0, entries[entries.len() - 1].0));
        lemma_below_irreflexive(key);
    }
    assert(table(init) =~= table(entries).remove(key));
}

/// The last key of an ascending list is the greatest key of its table.
proof fn lemma_last_is_greatest<V>(entries: Seq<(Seq<u8>, V)>, key: Seq<u8>)
    requires
        ascending(entries),
        entries.len() > 0,
        table(entries).contains_key(key),
    ensures
        key == entries.last().0 || bytes_below(key, entries.last().0),
{
    lemma_table_keys(entries, key);
    let i = choose|i: int| 0 <= i < entries.len() && (#[trigger] entries[i]).0 == key;
    if i < entries.len() - 1 {
        assert(bytes_below(entries[i].0, entries[entries.len() - 1].0));
    }
}

/// Two ascending lists with one table are one list.
pub proof fn lemma_ascending_list_is_unique<V>(first: Seq<(Seq<u8>, V)>, second: Seq<(Seq<u8>, V)>)
    requires
        ascending(first),
        ascending(second),
        table(first) == table(second),
    ensures
        first == second,
    decreases first.len(),
{
    if first.len() == 0 {
        if second.len() > 0 {
            lemma_table_without_last(second);
        }
        assert(first =~= second);
    } else {
        lemma_table_without_last(first);
        if second.len() == 0 {
            assert(false);
        }
        lemma_table_without_last(second);
        let a = first.last().0;
        let b = second.last().0;
        lemma_last_is_greatest(first, b);
        lemma_last_is_greatest(second, a);
        if a != b {
            lemma_below_transitive(a, b, a);
            lemma_below_irreflexive(a);
        }
        lemma_ascending_list_is_unique(first.drop_last(), second.drop_last());
        assert(first =~= first.drop_last().push(first.last()));
        assert(second =~= second.drop_last().push(second.last()));
    }
}

/// The table of a storage list is the table of its entries.
proof fn lemma_storage_table(entries: Seq<(Seq<u8>, Seq<u8>)>)
    ensures
        storage_table(entries) == table(entries),
    decreases entries.len(),
{
    if entries.len() > 0 {
        lemma_storage_table(entries.drop_last());
    }
}

/// The table of a list of accounts is the table of the accounts as the interpreter
/// sees them.
proof fn lemma_account_table(state: Seq<(Seq<u8>, AccountView)>)
    ensures
        account_table(state) == table(stored_entries(state)),
    decreases state.len(),
{
    if state.len() > 0 {
        lemma_account_table(state.drop_last());
        assert(stored_entries(state).drop_last() =~= stored_entries(state.drop_last()));
    } else {
        assert(no_accounts() =~= table(stored_entries(state)));
    }
}

/// A map of accounts has at most one listing, and `listing` names it.
pub proof fn lemma_listing_is_unique(
    first: Seq<(Seq<u8>, AccountView)>,
    second: Seq<(Seq<u8>, AccountView)>,
    accounts: Map<Seq<u8>, StoredAccount>,
)
    requires
        is_listing(first, accounts),
        is_listing(second, accounts),
    ensures
        first == second,
        first == listing(accounts),
{
    lemma_listing_is_unique_pair(first, second, accounts);
    lemma_listing_is_unique_pair(listing(accounts), first, accounts);
}

/// Two listings of one map of accounts are one list.
proof fn lemma_listing_is_unique_pair(
    first: Seq<(Seq<u8>, AccountView)>,
    second: Seq<(Seq<u8>, AccountView)>,
    accounts: Map<Seq<u8>, StoredAccount>,
)
    requires
        is_listing(first, accounts),
        is_listing(second, accounts),
    ensures
        first == second,
{
    lemma_account_table(first);
    lemma_account_table(second);
    let a = stored_entries(first);
    let b = stored_entries(second);
    assert forall|i: int, j: int| 0 <= i < j < a.len() implies bytes_below(
        (#[trigger] a[i]).0,
        (#[trigger] a[j]).0,
    ) by {
        assert(bytes_below(first[i].0, first[j].0));
    }
    assert forall|i: int, j: int| 0 <= i < j < b.len() implies bytes_below(
        (#[trigger] b[i]).0,
        (#[trigger] b[j]).0,
    ) by {
        assert(bytes_below(second[i].0, second[j].0));
    }
    lemma_ascending_list_is_unique(a, b);
    assert(first.len() == second.len());
    assert forall|i: int| 0 <= i < first.len() implies first[i] == second[i] by {
        assert(a[i] == b[i]);
        assert(first[i].0 == second[i].0);
        assert(stored(first[i].1) == stored(second[i].1));
        lemma_storage_table(first[i].1.storage);
        lemma_storage_table(second[i].1.storage);
        lemma_ascending_list_is_unique(first[i].1.storage, second[i].1.storage);
    }
    assert(first =~= second);
}

} // verus!
