//! Whether a run ended as the fixture expects.

use crate::backend::Backend;
use crate::error::{Error, TestError};
use crate::hash::{state_root, state_root_of};
use crate::report::{dump_lines, dump_texts, texts};
use crate::types::TestPostState;
use vstd::prelude::*;

verus! {

/// How a test ends. Where an exception is expected, the test passes exactly if the run
/// failed, and the fingerprints play no part. Where none is expected, the test passes
/// exactly if the fingerprint of the final state is the expected one, whether the run
/// failed or not.
pub open spec fn verdict(
    expect_exception: bool,
    failed: bool,
    root: Seq<u8>,
    expected: Seq<u8>,
) -> Result<(), Error> {
    if expect_exception {
        if failed {
            Ok(())
        } else {
            Err(Error::Test(TestError::ExpectException))
        }
    } else if root == expected {
        Ok(())
    } else {
        Err(Error::Test(TestError::StateMismatch))
    }
}

/// Whether the verdict comes with a description of the final state: in debug mode,
/// where the fingerprints were compared and differ.
pub open spec fn is_dumped(debug: bool, r: Result<(), Error>) -> bool {
    debug && r == Err::<(), Error>(Error::Test(TestError::StateMismatch))
}

/// Decides how the test ends, from what the fixture expects in `post`, whether the run
/// failed, and the state `backend` that the run left. The fingerprint of the state is
/// taken only where no exception is expected. In debug mode a state whose fingerprint
/// is not the expected one is described at the end of `out`, one line for each account.
pub fn verify(
    post: &TestPostState,
    failed: bool,
    backend: &Backend,
    debug: bool,
    out: &mut Vec<String>,
) -> (r: Result<(), Error>)
    requires
        backend.layers@.len() > 0,
    ensures
        r == verdict(
            post.expect_exception is Some,
            failed,
            state_root_of(backend@.layers[0].state),
            post.hash@,
        ),
        is_dumped(debug, r) ==> texts(final(out)@) == texts(old(out)@) + dump_texts(
            backend@.layers[0].state,
        ),
        !is_dumped(debug, r) ==> final(out)@ == old(out)@,
{
    if post.expect_exception.is_some() {
        if failed {
            return Ok(());
        } else {
            return Err(Error::from(TestError::ExpectException));
        }
    }
    let root = state_root(backend);
    if !root.same(&post.hash) {
        if debug {
            let mut lines = dump_lines(&backend.layers[0].state);
            let ghost dumped = lines@;
            out.append(&mut lines);
            assert(texts(out@) =~= texts(old(out)@) + texts(dumped));
        }
        return Err(Error::from(TestError::StateMismatch));
    }
    Ok(())
}

} // verus!
