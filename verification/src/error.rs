//! The ways in which a test can end without passing.

use vstd::prelude::*;
use vstd::std_specs::convert::FromSpecImpl;

verus! {

/// A fixture's expectation that the outcome of the run did not meet.
#[derive(Clone, Copy, Debug, PartialEq, Eq, Structural)]
pub enum TestError {
    /// The fixture expected the transaction to fail, and it succeeded.
    ExpectException,
    /// The fingerprint of the final state is not the one the fixture declares.
    StateMismatch,
}

/// Why `run_test` did not return `Ok`.
#[derive(Clone, Copy, Debug, PartialEq, Eq, Structural)]
pub enum Error {
    /// The fixture names a fork that no configuration exists for.
    UnsupportedFork,
    /// The run ended, and not as the fixture expects.
    Test(TestError),
}

impl From<TestError> for Error {
    fn from(e: TestError) -> (r: Error) {
        Error::Test(e)
    }
}

impl FromSpecImpl<TestError> for Error {
    open spec fn obeys_from_spec() -> bool {
        true
    }

    open spec fn from_spec(e: TestError) -> Error {
        Error::Test(e)
    }
}

impl TestError {
    /// A short description of the failure.
    pub fn message(&self) -> (r: &'static str)
        ensures
            *self == TestError::ExpectException ==> r@ == "expect error, but got okay"@,
            *self == TestError::StateMismatch ==> r@ == "state root is different"@,
    {
        match self {
            TestError::ExpectException => "expect error, but got okay",
            TestError::StateMismatch => "state root is different",
        }
    }
}

impl Error {
    /// A short description of the failure.
    pub fn message(&self) -> (r: &'static str)
        ensures
            *self == Error::UnsupportedFork ==> r@ == "unsupported fork"@,
            *self is Test ==> r@ == "test error"@,
    {
        match self {
            Error::UnsupportedFork => "unsupported fork",
            Error::Test(_) => "test error",
        }
    }
}

} // verus!
