//! What holds of every fixture, stated over the specification of `run_test`.

use crate::backend::Backend;
use crate::context::is_supported;
use crate::error::{Error, TestError};
use crate::hash::state_root_of;
use crate::report::{dump_texts, trace_texts};
use crate::run::{final_state, run_failed, run_test_leaves, test_result, trace_of, written};
use crate::state::{materialized, materialized_storage};
use crate::types::{Test, TestPreState};
use crate::word::{be_bytes, be_value, lemma_storage_round_trip, H160, U256};
use vstd::prelude::*;

verus! {

/// A fixture for a fork without configuration ends in `UnsupportedFork`, whatever else
/// it holds, and `run_test` writes nothing for it.
pub proof fn unsupported_fork_is_refused(
    test: Test,
    debug: bool,
    before: Seq<String>,
    r: Result<(), Error>,
    after: Seq<String>,
)
    requires
        !is_supported(test.fork),
        run_test_leaves(test, debug, before, r, after),
    ensures
        r == Err::<(), Error>(Error::UnsupportedFork),
        after == before,
{
}

/// Where a fixture for a supported fork expects an exception, the test passes exactly
/// if the run fails, and otherwise ends in `ExpectException`. The fingerprints play no
/// part: two such fixtures that differ in nothing but the expected fingerprint end
/// alike.
pub proof fn expected_exception_rests_on_the_run(test: Test, other: Test)
    requires
        is_supported(test.fork),
        test.post.expect_exception is Some,
        other.fork == test.fork,
        other.env == test.env,
        other.pre == test.pre,
        other.transaction == test.transaction,
        other.post.expect_exception is Some,
    ensures
        test_result(test) is Ok <==> run_failed(test),
        !run_failed(test) ==> test_result(test) == Err::<(), Error>(
            Error::Test(TestError::ExpectException),
        ),
        test_result(other) == test_result(test),
{
}

/// Where a fixture for a supported fork expects no exception, the test passes exactly
/// if the fingerprint of the state that the run leaves is the expected one, and
/// otherwise ends in `StateMismatch`, whether the run failed or not.
pub proof fn fingerprint_decides_without_expected_exception(test: Test)
    requires
        is_supported(test.fork),
        test.post.expect_exception is None,
    ensures
        test_result(test) is Ok <==> state_root_of(final_state(test)) == test.post.hash@,
        state_root_of(final_state(test)) != test.post.hash@ ==> test_result(test) == Err::<
            (),
            Error,
        >(Error::Test(TestError::StateMismatch)),
{
}

/// Debug mode does not change how a test ends: whatever `run_test` leaves for a fixture
/// with debug mode and without, the two verdicts are the same, and without debug mode
/// nothing is written.
pub proof fn debug_mode_keeps_the_verdict(
    test: Test,
    before: Seq<String>,
    with_debug: Result<(), Error>,
    lines_with_debug: Seq<String>,
    without_debug: Result<(), Error>,
    lines_without_debug: Seq<String>,
)
    requires
        run_test_leaves(test, true, before, with_debug, lines_with_debug),
        run_test_leaves(test, false, before, without_debug, lines_without_debug),
    ensures
        with_debug == without_debug,
        lines_without_debug == before,
{
}

/// In debug mode a final state whose fingerprint is not the expected one is described
/// by the last lines that the test writes, one line for each account of that state.
pub proof fn mismatch_is_described_account_by_account(test: Test)
    requires
        is_supported(test.fork),
        test_result(test) == Err::<(), Error>(Error::Test(TestError::StateMismatch)),
    ensures
        written(test, true).len() >= final_state(test).len(),
        written(test, true).subrange(
            written(test, true).len() - final_state(test).len(),
            written(test, true).len() as int,
        ) == dump_texts(final_state(test)),
        dump_texts(final_state(test)).len() == final_state(test).len(),
{
    let trace = trace_texts(trace_of(test));
    let dump = dump_texts(final_state(test));
    assert((trace + dump).subrange(trace.len() as int, (trace + dump).len() as int) =~= dump);
}

/// Two backends whose accounts were both built from one starting state have the same
/// fingerprint.
pub proof fn materializing_twice_gives_one_fingerprint(
    pre: Seq<(H160, TestPreState)>,
    first: Backend,
    second: Backend,
)
    requires
        first@.layers.len() > 0,
        second@.layers.len() > 0,
        first@.layers[0].state == materialized(pre),
        second@.layers[0].state == materialized(pre),
    ensures
        state_root_of(first@.layers[0].state) == state_root_of(second@.layers[0].state),
{
}

/// Every key and value of a fixture's storage, converted to a word and read back as an
/// integer, is the key or value that the fixture holds.
pub proof fn storage_words_read_back(storage: Seq<(U256, U256)>, i: int)
    requires
        0 <= i < storage.len(),
    ensures
        materialized_storage(storage)[i].0.len() == 32,
        materialized_storage(storage)[i].1.len() == 32,
        be_value(materialized_storage(storage)[i].0) == storage[i].0@,
        be_value(materialized_storage(storage)[i].1) == storage[i].1@,
{
    lemma_storage_round_trip(storage[i].0, storage[i].1);
}

} // verus!
