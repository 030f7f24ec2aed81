//! The interpreter library, as far as this crate calls it.
//!
//! Nothing in this file is proved. Each item states what the library's source shows of
//! one of its functions or types; the rest of the crate is verified against these
//! statements.

use crate::args::{ArgsView, ExecutionArgs};
use crate::backend::{no_accounts, Environment, EnvironmentView, StoredAccount};
use crate::listing::{entry_views, is_listing, StoredEntry};
use crate::types::Fork;
use crate::word::{H160, H256, U256};
use evm::backend::{InMemoryAccount, InMemoryBackend, InMemoryEnvironment, OverlayedBackend};
use evm::interpreter::etable::Chained;
use evm::interpreter::runtime::GasState;
use evm::interpreter::Capture;
use evm::standard::{Config, EtableResolver, ExecutionEtable, GasometerEtable, Invoker};
use evm::standard::{TransactArgs, TransactArgsCallCreate};
use evm::HeapTransact;
use primitive_types::U256 as Uint;
use std::collections::BTreeMap;
use vstd::prelude::*;

verus! {

/// The rules of one fork, as the interpreter reads them.
#[verifier::external_type_specification]
#[verifier::external_body]
pub struct ExConfig(Config);

/// The interpreter's in-memory account store: a block environment and a map from
/// addresses to accounts.
#[verifier::external_type_specification]
#[verifier::external_body]
pub struct ExInMemoryBackend(InMemoryBackend);

/// A store together with the changes that a running transaction has made so far.
#[verifier::external_type_specification]
#[verifier::external_body]
#[verifier::reject_recursive_types(B)]
pub struct ExOverlayedBackend<'config, B>(OverlayedBackend<'config, B>);

/// The table that charges gas for each instruction.
#[verifier::external_type_specification]
#[verifier::external_body]
pub struct ExGasometerEtable<'config>(GasometerEtable<'config>);

/// The table that carries out each instruction.
#[verifier::external_type_specification]
#[verifier::external_body]
pub struct ExExecutionEtable<'config>(ExecutionEtable<'config>);

/// Two instruction tables, the second asked where the first does nothing.
#[verifier::external_type_specification]
#[verifier::external_body]
#[verifier::reject_recursive_types(E1)]
#[verifier::reject_recursive_types(E2)]
pub struct ExChained<E1, E2>(Chained<E1, E2>);

/// Turns a call target or creation code into a machine that runs on a table.
#[verifier::external_type_specification]
#[verifier::external_body]
#[verifier::reject_recursive_types(Pre)]
#[verifier::reject_recursive_types(ES)]
pub struct ExEtableResolver<'precompile, 'etable, Pre, ES>(
    EtableResolver<'precompile, 'etable, Pre, ES>,
);

/// Starts and ends transactions and calls.
#[verifier::external_type_specification]
#[verifier::external_body]
#[verifier::reject_recursive_types(R)]
pub struct ExInvoker<'config, 'resolver, R>(Invoker<'config, 'resolver, R>);

/// The arguments of a transaction in the interpreter's own form, with the rules that
/// it runs under.
#[verifier::external_type_specification]
#[verifier::external_body]
pub struct ExTransactArgs<'config>(TransactArgs<'config>);

/// The instruction tables of the standard machine.
pub type StandardEtable<'c> = Chained<GasometerEtable<'c>, ExecutionEtable<'c>>;

/// The resolver of the standard machine, without precompiled contracts.
pub type StandardResolver<'c, 'e> = EtableResolver<'static, 'e, (), StandardEtable<'c>>;

/// The invoker of the standard machine.
pub type StandardInvoker<'c, 'e, 'r> = Invoker<'c, 'r, StandardResolver<'c, 'e>>;

/// A store under a running transaction.
pub type Overlay<'c> = OverlayedBackend<'c, InMemoryBackend>;

/// A transaction that is run one instruction at a time: the interpreter's
/// `HeapTransact` over an `Overlay` and the standard invoker. Verus cannot be told of
/// that type, whose definition is bound by a trait of the interpreter library.
#[verifier::external_body]
pub struct Stepper<'a, 'c, 'e> {
    inner: HeapTransact<'a, 'a, Overlay<'c>, StandardInvoker<'c, 'e, 'a>>,
}

/// Where a stepped machine stands: the position of the next instruction, that
/// instruction if the position is inside the code, and the gas that is left.
#[derive(Clone, Copy, Debug, PartialEq, Eq)]
pub struct Peek {
    pub position: usize,
    pub opcode: Option<u8>,
    pub gas: U256,
}

/// Arguments in the interpreter's form: what they hold, and the rules they carry.
pub struct Staged {
    pub args: ArgsView,
    pub config: Config,
}

/// What an `Overlay` was made of: the accounts and the environment of the store, and
/// the rules. It is pristine where no transaction has run on it and the store held
/// nothing else.
pub struct OverlayView {
    pub accounts: Map<Seq<u8>, StoredAccount>,
    pub environment: EnvironmentView,
    pub config: Config,
    pub pristine: bool,
}

/// What a `Stepper` was started on, and how many steps it has made.
pub struct StepperView {
    pub args: Staged,
    pub overlay: OverlayView,
    pub steps: nat,
}

/// The configuration that the interpreter library ships for `fork`.
pub uninterp spec fn standard_config(fork: Fork) -> Config;

/// The accounts that `store` holds, by address.
pub uninterp spec fn stored_accounts(store: InMemoryBackend) -> Map<Seq<u8>, StoredAccount>;

/// The block environment that `store` holds.
pub uninterp spec fn stored_environment(store: InMemoryBackend) -> EnvironmentView;

/// Whether `store` holds nothing but what `stored_accounts` and `stored_environment`
/// show of it: no transient storage, no blob fee and no blob hashes.
pub uninterp spec fn is_plain(store: InMemoryBackend) -> bool;

/// What the interpreter's form of a transaction's arguments holds.
pub uninterp spec fn staged(args: TransactArgs<'_>) -> Staged;

/// What `overlay` was made of.
pub uninterp spec fn overlay_view(overlay: Overlay<'_>) -> OverlayView;

/// The accounts of the store that `overlay` wraps, once the changes that `overlay`
/// has recorded are applied to it.
pub uninterp spec fn settled(overlay: Overlay<'_>) -> Map<Seq<u8>, StoredAccount>;

/// What `stepper` was started on, and how many steps it has made.
pub uninterp spec fn stepper_view(stepper: Stepper<'_, '_, '_>) -> StepperView;

/// Whether the interpreter can make a stepper for the transaction `args` on `overlay`.
pub uninterp spec fn can_step(args: Staged, overlay: OverlayView) -> bool;

/// Where the machine on top of the call stack stands once the transaction `args` has
/// been stepped `steps` times on `overlay`, or nothing where no machine runs then.
pub uninterp spec fn peek_after(args: Staged, overlay: OverlayView, steps: nat) -> Option<Peek>;

/// Whether the next step ends the transaction `args`, once it has been stepped `steps`
/// times on `overlay`.
pub uninterp spec fn exits_after(args: Staged, overlay: OverlayView, steps: nat) -> bool;

/// What running a transaction gives: whether it failed, and the accounts afterwards.
/// The arguments are the transaction's arguments with their rules, the depth from
/// which calls are kept on the heap, and the overlay that the transaction starts on.
pub uninterp spec fn executed(args: Staged, depth: nat, overlay: OverlayView) -> (
    bool,
    Map<Seq<u8>, StoredAccount>,
);

/// The rules of the Berlin fork.
///
/// Trusted: calls `evm::standard::Config::berlin`, which takes no argument and returns
/// a fixed value. The contract gives that value a name.
#[verifier::external_body]
pub(crate) fn berlin_config() -> (config: Config)
    ensures
        config == standard_config(Fork::Berlin),
{
    Config::berlin()
}

/// A store over `environment` that holds no account.
///
/// Trusted: builds an `evm::backend::InMemoryBackend` from an `InMemoryEnvironment`
/// with the fields of `environment`, no blob fee and no blob hashes, and an empty
/// account map. The contract says that the store holds that environment, no account,
/// and nothing else.
#[verifier::external_body]
pub(crate) fn store_new(environment: &Environment) -> (store: InMemoryBackend)
    ensures
        stored_accounts(store) == no_accounts(),
        stored_environment(store) == environment@,
        is_plain(store),
{
    let environment = InMemoryEnvironment {
        block_hashes: environment.block_hashes.iter().map(|e| (Uint(e.0.0), e.1.0.into())).collect(),
        block_number: Uint(environment.block_number.0),
        block_coinbase: environment.block_coinbase.0.into(),
        block_timestamp: Uint(environment.block_timestamp.0),
        block_difficulty: Uint(environment.block_difficulty.0),
        block_randomness: environment.block_randomness.map(|r| r.0.into()),
        block_gas_limit: Uint(environment.block_gas_limit.0),
        block_base_fee_per_gas: Uint(environment.block_base_fee_per_gas.0),
        blob_base_fee_per_gas: Uint::zero(), blob_versioned_hashes: Vec::new(),
        chain_id: Uint(environment.chain_id.0),
    };
    InMemoryBackend { environment, state: BTreeMap::new() }
}

/// Puts an account without storage at `address`, in place of what was there.
///
/// Trusted: calls `BTreeMap::insert` on the store's account map with a new
/// `evm::backend::InMemoryAccount` without storage of either kind. The contract says
/// that the store then holds the new account at `address` and is otherwise unchanged.
#[verifier::external_body]
pub(crate) fn store_put_account(
    store: &mut InMemoryBackend,
    address: &H160,
    balance: &U256,
    nonce: &U256,
    code: &Vec<u8>,
)
    ensures
        stored_accounts(*final(store)) == stored_accounts(*old(store)).insert(
            address@,
            StoredAccount { balance: balance@, nonce: nonce@, code: code@, storage: Map::empty() },
        ),
        stored_environment(*final(store)) == stored_environment(*old(store)),
        is_plain(*old(store)) ==> is_plain(*final(store)),
{
    let account = InMemoryAccount {
        balance: Uint(balance.0),
        code: code.clone(),
        nonce: Uint(nonce.0),
        storage: BTreeMap::new(),
        transient_storage: BTreeMap::new(),
    };
    store.state.insert(address.0.into(), account);
}

/// Sets one storage slot of the account at `address`.
///
/// Trusted: calls `BTreeMap::insert` on the storage map of the account that the store
/// holds at `address`. The contract says that this account's storage then maps `key`
/// to `value`, and that nothing else changed.
#[verifier::external_body]
pub(crate) fn store_put_storage(store: &mut InMemoryBackend, address: &H160, key: &H256, value: &H256)
    requires
        stored_accounts(*old(store)).contains_key(address@),
    ensures
        stored_accounts(*final(store)) == stored_accounts(*old(store)).insert(
            address@,
            StoredAccount {
                storage: stored_accounts(*old(store))[address@].storage.insert(key@, value@),
                ..stored_accounts(*old(store))[address@]
            },
        ),
        stored_environment(*final(store)) == stored_environment(*old(store)),
        is_plain(*old(store)) ==> is_plain(*final(store)),
{
    store.state.entry(address.0.into()).or_default().storage.insert(key.0.into(), value.0.into());
}

/// The accounts of `store`, in the store's order.
///
/// Trusted: walks the store's account map and each account's storage map with
/// `BTreeMap::iter`, which goes by ascending key; addresses and storage keys are
/// ordered as byte strings. The contract says that the entries hold what the store
/// holds, and that addresses and storage keys ascend.
#[verifier::external_body]
pub(crate) fn store_accounts(store: &InMemoryBackend) -> (entries: Vec<StoredEntry>)
    ensures
        is_listing(entry_views(entries@), stored_accounts(*store)),
{
    let words = |a: &InMemoryAccount| a.storage.iter().map(|(k, v)| (H256(k.0), H256(v.0))).collect();
    let entry = |(address, a): (&primitive_types::H160, &InMemoryAccount)| StoredEntry {
        address: H160(address.0),
        balance: U256(a.balance.0),
        nonce: U256(a.nonce.0),
        code: a.code.clone(),
        storage: words(a),
    };
    store.state.iter().map(entry).collect()
}

/// The interpreter's form of `args`, to run under `config`.
///
/// Trusted: builds an `evm::standard::TransactArgs` with a legacy gas price; with an
/// address it is a call with `data` as input, without one a creation from `data`
/// without salt. The contract says that the result holds `args` and `config`.
#[verifier::external_body]
pub(crate) fn stage<'c>(args: &ExecutionArgs, config: &'c Config) -> (out: TransactArgs<'c>)
    ensures
        staged(out) == (Staged { args: args@, config: *config }),
{
    let (data, list) = (args.data.clone(), args.access_list.iter());
    TransactArgs {
        call_create: match args.address {
            Some(to) => TransactArgsCallCreate::Call { address: to.0.into(), data },
            None => TransactArgsCallCreate::Create { init_code: data, salt: None },
        },
        caller: args.caller.0.into(),
        value: Uint(args.value.0),
        gas_limit: Uint(args.gas_limit.0),
        gas_price: Uint(args.gas_price.0).into(),
        access_list: list.map(|e| (e.0.0.into(), e.1.iter().map(|k| k.0.into()).collect())).collect(),
        config,
    }
}

/// The instruction tables of the standard machine: the gas table, then the table that
/// carries the instructions out.
///
/// Trusted: pairs `evm::standard::GasometerEtable::new` and `ExecutionEtable::new` in
/// an `evm::interpreter::etable::Chained`. Nothing is stated of the result.
#[verifier::external_body]
pub(crate) fn standard_etable<'c>() -> StandardEtable<'c> {
    Chained(GasometerEtable::new(), ExecutionEtable::new())
}

/// The resolver over `etable`, without precompiled contracts.
///
/// Trusted: calls `evm::standard::EtableResolver::new`. Nothing is stated of the result.
#[verifier::external_body]
pub(crate) fn standard_resolver<'c, 'e>(etable: &'e StandardEtable<'c>) -> StandardResolver<'c, 'e> {
    EtableResolver::new(&(), etable)
}

/// The invoker over `resolver`.
///
/// Trusted: calls `evm::standard::Invoker::new`. Nothing is stated of the result.
#[verifier::external_body]
pub(crate) fn standard_invoker<'c, 'e, 'r>(
    resolver: &'r StandardResolver<'c, 'e>,
) -> StandardInvoker<'c, 'e, 'r> {
    Invoker::new(resolver)
}

/// An overlay on `store` for a transaction under `config`.
///
/// Trusted: calls `evm::backend::OverlayedBackend::new`, which wraps the store with an
/// empty record of changes. The contract says what the overlay was made of, and that
/// it is pristine where the store holds nothing beyond its accounts and environment.
#[verifier::external_body]
pub(crate) fn overlay_new<'c>(store: InMemoryBackend, config: &'c Config) -> (overlay: Overlay<'c>)
    ensures
        overlay_view(overlay) == (OverlayView {
            accounts: stored_accounts(store),
            environment: stored_environment(store),
            config: *config,
            pristine: is_plain(store),
        }),
{
    OverlayedBackend::new(store, &config.runtime)
}

/// Runs a transaction to its end on `overlay`, and says whether it failed.
///
/// Trusted: calls `evm::transact`, which keeps calls deeper than `depth` on the heap.
/// The interpreter draws on nothing but its arguments, and every invoker of this type
/// behaves alike, so on a pristine overlay the result and the accounts that the overlay
/// then stands for are a function of the arguments, the depth and what the overlay was
/// made of. The contract says so, and no more.
#[verifier::external_body]
pub(crate) fn transact<'c, 'e, 'r>(
    args: TransactArgs<'c>,
    depth: usize,
    overlay: &mut Overlay<'c>,
    invoker: &StandardInvoker<'c, 'e, 'r>,
) -> (failed: bool)
    requires
        overlay_view(*old(overlay)).pristine,
    ensures
        (failed, settled(*final(overlay))) == executed(
            staged(args),
            depth as nat,
            overlay_view(*old(overlay)),
        ),
{
    evm::transact(args, Some(depth), overlay, invoker).is_err()
}

/// The store that `overlay` wraps, with the recorded changes applied.
///
/// Trusted: calls `evm::backend::OverlayedBackend::deconstruct` and then
/// `InMemoryBackend::apply_overlayed` on the store it returns. The contract says that
/// the store holds the settled accounts.
#[verifier::external_body]
pub(crate) fn overlay_settle(overlay: Overlay<'_>) -> (store: InMemoryBackend)
    ensures
        stored_accounts(store) == settled(overlay),
{
    let (mut store, changes) = overlay.deconstruct();
    store.apply_overlayed(&changes);
    store
}

/// A stepper for the transaction `args` on `overlay`, or nothing where the interpreter
/// cannot make one.
///
/// Trusted: calls `evm::HeapTransact::new`, whose result depends on its arguments
/// alone. The contract gives a name to whether a stepper comes back, and says that the
/// stepper has made no step yet.
#[verifier::external_body]
pub(crate) fn stepper_new<'a, 'c, 'e>(
    args: TransactArgs<'c>,
    invoker: &'a StandardInvoker<'c, 'e, 'a>,
    overlay: &'a mut Overlay<'c>,
) -> (stepper: Option<Stepper<'a, 'c, 'e>>)
    requires
        overlay_view(*old(overlay)).pristine,
    ensures
        stepper is Some <==> can_step(staged(args), overlay_view(*old(overlay))),
        stepper is Some ==> stepper_view(stepper->0) == (StepperView {
            args: staged(args),
            overlay: overlay_view(*old(overlay)),
            steps: 0,
        }),
{
    HeapTransact::new(args, invoker, overlay).ok().map(|inner| Stepper { inner })
}

/// Where the machine on top of the call stack stands, or nothing where no machine runs.
///
/// Trusted: calls `evm::HeapTransact::last_interpreter`, and `position`, `peek_opcode`
/// and `gas` on the machine. What they return depends on what the stepper was started
/// on and on the number of steps made. The contract gives the result a name.
#[verifier::external_body]
pub(crate) fn stepper_peek(stepper: &Stepper<'_, '_, '_>) -> (peek: Option<Peek>)
    ensures
        peek == peek_after(
            stepper_view(*stepper).args,
            stepper_view(*stepper).overlay,
            stepper_view(*stepper).steps,
        ),
{
    stepper.inner.last_interpreter().map(
        |m| Peek { position: m.position(), opcode: m.peek_opcode().map(|o| o.0), gas: U256(m.state.gas().0) },
    )
}

/// Advances the transaction by one step, and says whether that step ended it.
///
/// Trusted: calls `evm::HeapTransact::step`; the transaction has ended where the call
/// returns an exit. Whether it does depends on what the stepper was started on and on
/// the number of steps made. The contract gives the result a name, and counts the step.
#[verifier::external_body]
pub(crate) fn stepper_step(stepper: &mut Stepper<'_, '_, '_>) -> (exited: bool)
    ensures
        exited == exits_after(
            stepper_view(*old(stepper)).args,
            stepper_view(*old(stepper)).overlay,
            stepper_view(*old(stepper)).steps,
        ),
        stepper_view(*final(stepper)) == (StepperView {
            steps: stepper_view(*old(stepper)).steps + 1,
            ..stepper_view(*old(stepper))
        }),
{
    matches!(stepper.inner.step(), Err(Capture::Exit(_)))
}

} // verus!
