//! Running a transaction on a backend: once to its end, and once more step by step.

use crate::args::{ArgsView, ExecutionArgs};
use crate::backend::{account_table, state_view, storage_table, storage_view};
use crate::backend::{copy_of, Account, AccountView, Backend, BackendView, EnvironmentView};
use crate::backend::{Layer, StoredAccount};
use crate::listing::{entry_views, is_listing, lemma_listing_is_unique, listing, StoredEntry};
use crate::vm::{can_step, executed, exits_after, is_plain, peek_after, stepper_view};
use crate::vm::{stored_accounts, stored_environment};
use crate::word::H160;
use crate::vm::{overlay_new, overlay_settle, stage, standard_etable, standard_invoker};
use crate::vm::{standard_resolver, stepper_new, stepper_peek, stepper_step, store_accounts};
use crate::vm::{store_new, store_put_account, store_put_storage, transact};
use crate::vm::{OverlayView, Peek, Staged};
use evm::backend::InMemoryBackend;
use evm::standard::Config;
use vstd::prelude::*;

verus! {

/// The depth from which the interpreter keeps nested calls on the heap.
pub const HEAP_DEPTH: usize = 4;

/// What running the transaction `args` under `config` gives, on a starting state with
/// the block `environment` and the accounts `state`: whether the run failed, and the
/// accounts afterwards.
pub open spec fn run_result(
    config: Config,
    args: ArgsView,
    environment: EnvironmentView,
    state: Seq<(Seq<u8>, AccountView)>,
) -> (bool, Map<Seq<u8>, StoredAccount>) {
    executed(
        Staged { args, config },
        HEAP_DEPTH as nat,
        OverlayView {
            accounts: account_table(state),
            environment,
            config,
            pristine: true,
        },
    )
}

/// What running the transaction `args` under `config` on the first layer of `backend`
/// gives.
pub open spec fn run_outcome(config: Config, args: ArgsView, backend: BackendView) -> (
    bool,
    Map<Seq<u8>, StoredAccount>,
) {
    run_result(config, args, backend.environment, backend.layers[0].state)
}

/// A store of the interpreter that holds the environment and the accounts of the one
/// layer of `backend`.
fn load(backend: &Backend) -> (store: InMemoryBackend)
    requires
        backend.layers@.len() == 1,
    ensures
        stored_accounts(store) == account_table(backend@.layers[0].state),
        stored_environment(store) == backend.environment@,
        is_plain(store),
{
    let mut store = store_new(&backend.environment);
    let state = &backend.layers[0].state;
    let ghost entries = state_view(state@);
    let mut i: usize = 0;
    while i < state.len()
        invariant
            i <= state.len(),
            entries == state_view(state@),
            stored_accounts(store) == account_table(entries.subrange(0, i as int)),
            stored_environment(store) == backend.environment@,
            is_plain(store),
        decreases state.len() - i,
    {
        let address = &state[i].0;
        let account = &state[i].1;
        let ghost before = account_table(entries.subrange(0, i as int));
        let ghost words = storage_view(account.storage@);
        store_put_account(&mut store, address, &account.balance, &account.nonce, &account.code);
        let mut j: usize = 0;
        while j < account.storage.len()
            invariant
                j <= account.storage.len(),
                words == storage_view(account.storage@),
                stored_accounts(store) == before.insert(
                    address@,
                    StoredAccount {
                        balance: account.balance@,
                        nonce: account.nonce@,
                        code: account.code@,
                        storage: storage_table(words.subrange(0, j as int)),
                    },
                ),
                stored_environment(store) == backend.environment@,
                is_plain(store),
            decreases account.storage.len() - j,
        {
            store_put_storage(&mut store, address, &account.storage[j].0, &account.storage[j].1);
            proof {
                let prefix = words.subrange(0, j + 1);
                assert(prefix.drop_last() =~= words.subrange(0, j as int));
                assert(prefix.last() == words[j as int]);
                assert(storage_table(prefix) == storage_table(words.subrange(0, j as int)).insert(
                    words[j as int].0,
                    words[j as int].1,
                ));
                let next = StoredAccount {
                    balance: account.balance@,
                    nonce: account.nonce@,
                    code: account.code@,
                    storage: storage_table(prefix),
                };
                assert(stored_accounts(store) =~= before.insert(address@, next));
            }
            j = j + 1;
        }
        proof {
            let prefix = entries.subrange(0, i + 1);
            assert(words.subrange(0, words.len() as int) =~= words);
            assert(prefix.drop_last() =~= entries.subrange(0, i as int));
            assert(prefix.last() == entries[i as int]);
        }
        i = i + 1;
    }
    proof {
        assert(entries.subrange(0, entries.len() as int) =~= entries);
        assert(backend@.layers[0].state == entries);
    }
    store
}

/// The accounts that the entries of a store stand for, each with its storage also as
/// its original storage.
fn unload(entries: &Vec<StoredEntry>) -> (state: Vec<(H160, Account)>)
    ensures
        state_view(state@) == entry_views(entries@),
{
    let mut state: Vec<(H160, Account)> = Vec::new();
    let mut i: usize = 0;
    while i < entries.len()
        invariant
            i <= entries.len(),
            state@.len() == i,
            forall|j: int|
                0 <= j < i ==> (#[trigger] state@[j]).0@ == entry_views(entries@)[j].0
                    && state@[j].1@ == entry_views(entries@)[j].1,
        decreases entries.len() - i,
    {
        let entry = &entries[i];
        let account = Account {
            balance: entry.balance,
            code: copy_of(&entry.code),
            nonce: entry.nonce,
            storage: copy_of(&entry.storage),
            original_storage: copy_of(&entry.storage),
        };
        state.push((entry.address, account));
        i = i + 1;
    }
    assert(state_view(state@) =~= entry_views(entries@));
    state
}

/// Runs the transaction `args` under `config` on `backend` to its end, and says whether
/// it failed. Afterwards `backend` is the state that the run left, as a new starting
/// state: one layer with the accounts by ascending address, each with its storage by
/// ascending key and with that storage as its original storage. A failure of the transaction is a
/// result like any other.
pub fn run(config: &Config, args: &ExecutionArgs, backend: &mut Backend) -> (failed: bool)
    requires
        old(backend).is_initial(),
    ensures
        failed == run_outcome(*config, args@, old(backend)@).0,
        is_listing(final(backend)@.layers[0].state, run_outcome(*config, args@, old(backend)@).1),
        final(backend)@.layers[0].state == listing(run_outcome(*config, args@, old(backend)@).1),
        final(backend).is_initial(),
        final(backend).environment == old(backend).environment,
{
    let store = load(backend);
    let etable = standard_etable();
    let resolver = standard_resolver(&etable);
    let invoker = standard_invoker(&resolver);
    let mut overlay = overlay_new(store, config);
    let staged = stage(args, config);
    let failed = transact(staged, HEAP_DEPTH, &mut overlay, &invoker);
    let store = overlay_settle(overlay);
    let state = unload(&store_accounts(&store));
    proof {
        let accounts = run_outcome(*config, args@, old(backend)@).1;
        lemma_listing_is_unique(state_view(state@), state_view(state@), accounts);
    }
    backend.layers.pop();
    backend.layers.push(Layer { state, logs: Vec::new(), suicides: Vec::new(), hots: Vec::new() });
    failed
}

/// Where the machine stands before a step, as a list of one item, or the empty list
/// where no machine runs.
pub open spec fn seen(peek: Option<Peek>) -> Seq<Peek> {
    match peek {
        Some(p) => seq![p],
        None => Seq::empty(),
    }
}

/// Where the machine stands before each of the steps of the transaction `args` on
/// `overlay`, from the step after `done` steps up to the step that ends the
/// transaction, and for `budget` steps at most.
pub open spec fn traced(args: Staged, overlay: OverlayView, done: nat, budget: nat) -> Seq<Peek>
    decreases budget,
{
    if budget == 0 {
        Seq::empty()
    } else if exits_after(args, overlay, done) {
        seen(peek_after(args, overlay, done))
    } else {
        seen(peek_after(args, overlay, done)) + traced(
            args,
            overlay,
            done + 1,
            (budget - 1) as nat,
        )
    }
}

/// What stepping through the transaction `args` under `config` gives, on a starting
/// state with the block `environment` and the accounts `state`: where the machine
/// stood before each step. Nothing where the interpreter makes no stepper.
pub open spec fn trace_result(
    config: Config,
    args: ArgsView,
    environment: EnvironmentView,
    state: Seq<(Seq<u8>, AccountView)>,
) -> Seq<Peek> {
    let staged = Staged { args, config };
    let overlay = OverlayView { accounts: account_table(state), environment, config, pristine: true };
    if can_step(staged, overlay) {
        traced(staged, overlay, 0, u64::MAX as nat)
    } else {
        Seq::empty()
    }
}

/// Runs the transaction `args` under `config` on `backend` one step at a time, and
/// returns where the machine stood before each step, in the order of the steps. Where
/// the interpreter cannot make a stepper, nothing is returned. The run ends with the
/// first step that the interpreter reports as the exit of the transaction, and at the
/// latest after as many steps as a `u64` can count.
pub fn trace(config: &Config, args: &ExecutionArgs, backend: Backend) -> (steps: Vec<Peek>)
    requires
        backend.is_initial(),
    ensures
        steps@ == trace_result(*config, args@, backend@.environment, backend@.layers[0].state),
{
    let mut steps: Vec<Peek> = Vec::new();
    let store = load(&backend);
    let etable = standard_etable();
    let resolver = standard_resolver(&etable);
    let invoker = standard_invoker(&resolver);
    let mut overlay = overlay_new(store, config);
    let staged = stage(args, config);
    let ghost from = Staged { args: args@, config: *config };
    let ghost on = OverlayView {
        accounts: account_table(backend@.layers[0].state),
        environment: backend@.environment,
        config: *config,
        pristine: true,
    };
    let ghost total = traced(from, on, 0, u64::MAX as nat);
    match stepper_new(staged, &invoker, &mut overlay) {
        None => {},
        Some(mut stepper) => {
            let mut budget: u64 = u64::MAX;
            while budget > 0
                invariant_except_break
                    steps@ + traced(from, on, stepper_view(stepper).steps, budget as nat) == total,
                invariant
                    stepper_view(stepper).args == from,
                    stepper_view(stepper).overlay == on,
                ensures
                    steps@ == total,
                decreases budget,
            {
                let ghost before = steps@;
                let ghost done = stepper_view(stepper).steps;
                budget = budget - 1;
                match stepper_peek(&stepper) {
                    Some(peek) => {
                        steps.push(peek);
                    },
                    None => {},
                }
                assert(steps@ =~= before + seen(peek_after(from, on, done)));
                if stepper_step(&mut stepper) {
                    assert(steps@ =~= total);
                    break ;
                }
                assert(steps@ + traced(from, on, done + 1, budget as nat) =~= before + traced(
                    from,
                    on,
                    done,
                    (budget + 1) as nat,
                ));
            }
            assert(steps@ =~= total);
        },
    }
    steps
}

} // verus!
