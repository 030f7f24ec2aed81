//! One test, from the fixture to the verdict.

use crate::args::{args_of, ExecutionArgs};
use crate::backend::{AccountView, Backend};
use crate::context::{environment, environment_of, fork_config, is_supported};
use crate::driver::{run, run_result, trace, trace_result};
use crate::error::Error;
use crate::hash::state_root_of;
use crate::report::{dump_texts, texts, trace_lines, trace_texts};
use crate::state::{materialize, materialized};
use crate::types::Test;
use crate::verdict::{is_dumped, verdict, verify};
use crate::listing::listing;
use crate::vm::{standard_config, Peek};
use vstd::prelude::*;

verus! {

/// Whether the run of the fixture's transaction on the fixture's starting state fails.
pub open spec fn run_failed(test: Test) -> bool {
    run_result(
        standard_config(test.fork),
        args_of(test.transaction),
        environment_of(test.env),
        materialized(test.pre@),
    ).0
}

/// The accounts that the run of the fixture's transaction leaves.
pub open spec fn final_state(test: Test) -> Seq<(Seq<u8>, AccountView)> {
    listing(
        run_result(
            standard_config(test.fork),
            args_of(test.transaction),
            environment_of(test.env),
            materialized(test.pre@),
        ).1,
    )
}

/// How the test of a fixture ends.
pub open spec fn test_result(test: Test) -> Result<(), Error> {
    if !is_supported(test.fork) {
        Err(Error::UnsupportedFork)
    } else {
        verdict(
            test.post.expect_exception is Some,
            run_failed(test),
            state_root_of(final_state(test)),
            test.post.hash@,
        )
    }
}

/// Where the machine stands before each step of the fixture's transaction, stepped
/// through on the fixture's starting state.
pub open spec fn trace_of(test: Test) -> Seq<Peek> {
    trace_result(
        standard_config(test.fork),
        args_of(test.transaction),
        environment_of(test.env),
        materialized(test.pre@),
    )
}

/// The lines that the test of a fixture writes: none without debug mode or for an
/// unsupported fork; else one line for each step of the transaction, and then, where
/// the fingerprints were compared and differ, one line for each account of the final
/// state.
pub open spec fn written(test: Test, debug: bool) -> Seq<Seq<char>> {
    if !debug || !is_supported(test.fork) {
        Seq::empty()
    } else if is_dumped(debug, test_result(test)) {
        trace_texts(trace_of(test)) + dump_texts(final_state(test))
    } else {
        trace_texts(trace_of(test))
    }
}

/// What `run_test` leaves behind for a fixture: the verdict `r`, and the lines `after`
/// where the lines were `before`. The verdict is `test_result(test)`, and the lines
/// are the earlier lines followed by `written(test, debug)`.
pub open spec fn run_test_leaves(
    test: Test,
    debug: bool,
    before: Seq<String>,
    r: Result<(), Error>,
    after: Seq<String>,
) -> bool {
    &&& r == test_result(test)
    &&& texts(after) == texts(before) + written(test, debug)
    &&& !debug || !is_supported(test.fork) ==> after == before
}

/// Runs the test of one fixture and says how it ends.
///
/// A fixture for a fork without configuration ends in `UnsupportedFork`, and nothing is
/// built or run for it. Otherwise the starting state is built, copied, and the
/// transaction is run on one copy to its end; the verdict rests on that run alone. In
/// debug mode the transaction is then run on the other copy step by step, with one line
/// appended to `out` for each step, and a final state whose fingerprint is not the
/// expected one is described after these, one line for each account. Without debug
/// mode `out` is left as it is.
pub fn run_test(
    _filename: &str,
    _test_name: &str,
    test: Test,
    debug: bool,
    out: &mut Vec<String>,
) -> (r: Result<(), Error>)
    ensures
        r == test_result(test),
        run_test_leaves(test, debug, old(out)@, r, final(out)@),
{
    let config = match fork_config(test.fork) {
        Ok(config) => config,
        Err(e) => {
            assert(texts(out@) =~= texts(out@) + Seq::<Seq<char>>::empty());
            return Err(e);
        },
    };
    let environment = environment(&test.env);
    let state = materialize(&test.pre);
    let args = ExecutionArgs::new(&test.transaction);
    let mut run_backend = Backend::new(environment, state);
    let step_backend = run_backend.clone();
    let failed = run(&config, &args, &mut run_backend);
    if debug {
        let steps = trace(&config, &args, step_backend);
        let mut lines = trace_lines(&steps);
        let ghost traced = lines@;
        out.append(&mut lines);
        assert(texts(out@) =~= texts(old(out)@) + texts(traced));
    }
    let ghost before = out@;
    let r = verify(&test.post, failed, &run_backend, debug, out);
    proof {
        if debug {
            if is_dumped(debug, r) {
                assert(texts(out@) =~= texts(old(out)@) + (trace_texts(trace_of(test)) + dump_texts(
                    final_state(test),
                )));
            }
        } else {
            assert(texts(out@) =~= texts(old(out)@) + Seq::<Seq<char>>::empty());
        }
    }
    r
}

} // verus!
