use jsontests::backend::{Account, Backend};
use jsontests::context::environment;
use jsontests::error::{Error, TestError};
use jsontests::hash::state_root;
use jsontests::run::run_test;
use jsontests::types::{Fork, Test, TestEnv, TestPostState, TestPreState, TestTransaction};
use jsontests::word::{H160, H256, U256};

fn address(last: u8) -> H160 {
    let mut bytes = [0u8; 20];
    bytes[19] = last;
    H160(bytes)
}

fn number(n: u64) -> U256 {
    U256([n, 0, 0, 0])
}

fn env() -> TestEnv {
    TestEnv {
        current_coinbase: address(0xc0),
        current_difficulty: number(0x20000),
        current_gas_limit: number(10_000_000),
        current_number: number(1),
        current_random: H256([0u8; 32]),
        current_timestamp: number(1000),
    }
}

fn rich(balance: u64) -> TestPreState {
    TestPreState { balance: number(balance), code: Vec::new(), nonce: number(0), storage: Vec::new() }
}

fn contract(code: Vec<u8>) -> TestPreState {
    TestPreState { balance: number(0), code, nonce: number(1), storage: vec![(number(1), number(2))] }
}

fn transfer(gas_limit: u64) -> TestTransaction {
    TestTransaction {
        data: Vec::new(),
        gas_limit: number(gas_limit),
        gas_price: number(0),
        sender: address(1),
        to: Some(address(2)),
        value: number(0),
    }
}

fn fixture(pre: Vec<(H160, TestPreState)>, tx: TestTransaction, hash: H256, expect: Option<&str>) -> Test {
    Test {
        fork: Fork::Berlin,
        env: env(),
        pre,
        transaction: tx,
        post: TestPostState { hash, expect_exception: expect.map(|s| s.to_string()) },
    }
}

fn plain(balance: u64, nonce: u64) -> Account {
    Account {
        balance: number(balance),
        code: Vec::new(),
        nonce: number(nonce),
        storage: Vec::new(),
        original_storage: Vec::new(),
    }
}

/// The fingerprint of a state with the given accounts.
fn root_of(state: Vec<(H160, Account)>) -> H256 {
    state_root(&Backend::new(environment(&env()), state))
}

fn with_contract() -> Vec<(H160, TestPreState)> {
    vec![(address(1), rich(1_000_000)), (address(2), contract(vec![0x60, 0x01, 0x00]))]
}

const WRONG: H256 = H256([0x11; 32]);

#[test]
fn unsupported_fork_is_refused_and_nothing_is_written() {
    let mut test = fixture(with_contract(), transfer(100_000), WRONG, None);
    for fork in [
        Fork::Frontier,
        Fork::Homestead,
        Fork::EIP150,
        Fork::EIP158,
        Fork::Byzantium,
        Fork::Constantinople,
        Fork::ConstantinopleFix,
        Fork::Istanbul,
        Fork::London,
        Fork::Merge,
        Fork::Shanghai,
        Fork::Cancun,
    ] {
        test.fork = fork;
        for debug in [false, true] {
            let mut out = vec!["kept".to_string()];
            let r = run_test("file", "name", test.clone(), debug, &mut out);
            assert_eq!(r, Err(Error::UnsupportedFork));
            assert_eq!(out, vec!["kept".to_string()]);
        }
    }
}

const EMPTY_ROOT: H256 = H256([
    0x56, 0xe8, 0x1f, 0x17, 0x1b, 0xcc, 0x55, 0xa6, 0xff, 0x83, 0x45, 0xe6, 0x92, 0xc0, 0xf8, 0x6e,
    0x5b, 0x48, 0xe0, 0x1b, 0x99, 0x6c, 0xad, 0xc0, 0x01, 0x62, 0x2f, 0xb5, 0xe3, 0x63, 0xb4, 0x21,
]);

#[test]
fn zero_value_transaction_that_leaves_the_empty_state_passes() {
    // Without gas the transaction does not start, and the state stays empty.
    assert_eq!(root_of(Vec::new()), EMPTY_ROOT);
    for debug in [false, true] {
        let test = fixture(Vec::new(), transfer(0), EMPTY_ROOT, None);
        let mut out = Vec::new();
        assert_eq!(run_test("file", "name", test, debug, &mut out), Ok(()));
        assert!(out.is_empty());
    }
}

#[test]
fn zero_value_transaction_that_runs_is_counted_in_the_nonce_of_the_sender() {
    let counted = root_of(vec![(address(1), plain(0, 1))]);
    let test = fixture(Vec::new(), transfer(100_000), counted, None);
    let mut out = Vec::new();
    assert_eq!(run_test("file", "name", test, false, &mut out), Ok(()));
    assert!(out.is_empty());
    let test = fixture(Vec::new(), transfer(100_000), EMPTY_ROOT, None);
    assert_eq!(
        run_test("file", "name", test, false, &mut out),
        Err(Error::Test(TestError::StateMismatch))
    );
}

#[test]
fn expected_exception_with_too_little_gas_passes() {
    for debug in [false, true] {
        for hash in [WRONG, root_of(Vec::new())] {
            let test = fixture(Vec::new(), transfer(100), hash, Some("TR_IntrinsicGas"));
            let mut out = Vec::new();
            assert_eq!(run_test("file", "name", test, debug, &mut out), Ok(()));
            assert!(out.is_empty());
        }
    }
}

#[test]
fn expected_exception_with_a_run_that_succeeds_fails() {
    let after = root_of(vec![(address(1), plain(1_000_000, 1))]);
    for hash in [WRONG, after] {
        let pre = vec![(address(1), rich(1_000_000))];
        let test = fixture(pre, transfer(100_000), hash, Some("TR_IntrinsicGas"));
        let mut out = Vec::new();
        assert_eq!(
            run_test("file", "name", test, false, &mut out),
            Err(Error::Test(TestError::ExpectException))
        );
        assert!(out.is_empty());
    }
}

#[test]
fn failed_run_without_expected_exception_passes_on_the_matching_fingerprint() {
    // A transaction without the gas to start leaves the state as it was.
    let pre = vec![(address(1), rich(1_000_000))];
    let after = root_of(vec![(address(1), plain(1_000_000, 0))]);
    let test = fixture(pre.clone(), transfer(100), after, None);
    let mut out = Vec::new();
    assert_eq!(run_test("file", "name", test, false, &mut out), Ok(()));
    let test = fixture(pre, transfer(100), WRONG, None);
    assert_eq!(
        run_test("file", "name", test, false, &mut out),
        Err(Error::Test(TestError::StateMismatch))
    );
}

#[test]
fn wrong_fingerprint_fails_with_state_mismatch_and_is_silent_without_debug() {
    let test = fixture(with_contract(), transfer(100_000), WRONG, None);
    let mut out = Vec::new();
    assert_eq!(
        run_test("file", "name", test, false, &mut out),
        Err(Error::Test(TestError::StateMismatch))
    );
    assert!(out.is_empty());
}

#[test]
fn wrong_fingerprint_in_debug_mode_traces_the_run_and_describes_each_account() {
    let test = fixture(with_contract(), transfer(100_000), WRONG, None);
    let mut out = vec!["earlier".to_string()];
    assert_eq!(
        run_test("file", "name", test, true, &mut out),
        Err(Error::Test(TestError::StateMismatch))
    );
    let expected = vec![
        "earlier".to_string(),
        "pc: 0, opcode: Some(Opcode(96)), gas: 0x13498".to_string(),
        "pc: 2, opcode: Some(Opcode(0)), gas: 0x13495".to_string(),
        "pc: 3, opcode: None, gas: 0x13495".to_string(),
        format!("address: 0x{}01, balance: 1000000, nonce: 1, code: 0x, storage: {{}}", "00".repeat(19)),
        format!(
            "address: 0x{}02, balance: 0, nonce: 1, code: 0x600100, storage: {{0x{}01: 0x{}02}}",
            "00".repeat(19),
            "00".repeat(31),
            "00".repeat(31)
        ),
    ];
    assert_eq!(out, expected);
    assert_eq!(out.iter().filter(|line| line.starts_with("address: ")).count(), 2);
}

#[test]
fn matching_fingerprint_in_debug_mode_traces_the_run_and_describes_nothing() {
    let after = root_of(vec![(address(1), plain(0, 1))]);
    let test = fixture(Vec::new(), transfer(100_000), after, None);
    let mut out = Vec::new();
    assert_eq!(run_test("file", "name", test, true, &mut out), Ok(()));
    let expected =
        vec!["pc: 0, opcode: None, gas: 0x13498".to_string(), "pc: 0, opcode: None, gas: 0x13498".to_string()];
    assert_eq!(out, expected);
}

#[test]
fn debug_mode_does_not_change_the_verdict() {
    let after = root_of(vec![(address(1), plain(1_000_000, 1))]);
    let fixtures = vec![
        fixture(with_contract(), transfer(100_000), WRONG, None),
        fixture(with_contract(), transfer(100_000), WRONG, Some("any")),
        fixture(with_contract(), transfer(100), WRONG, Some("any")),
        fixture(vec![(address(1), rich(1_000_000))], transfer(100_000), after, None),
        fixture(vec![(address(1), rich(1_000_000))], transfer(100), after, None),
        fixture(Vec::new(), transfer(0), WRONG, None),
    ];
    for test in fixtures {
        let mut quiet = Vec::new();
        let mut loud = Vec::new();
        let without = run_test("file", "name", test.clone(), false, &mut quiet);
        let with = run_test("file", "name", test, true, &mut loud);
        assert_eq!(without, with);
        assert!(quiet.is_empty());
    }
}

#[test]
fn transaction_without_recipient_creates_a_contract() {
    let mut tx = transfer(100_000);
    tx.to = None;
    tx.data = vec![0x00];
    let pre = vec![(address(1), rich(1_000_000))];
    let test = fixture(pre, tx, WRONG, None);
    let mut out = Vec::new();
    assert_eq!(
        run_test("file", "name", test, true, &mut out),
        Err(Error::Test(TestError::StateMismatch))
    );
    assert_eq!(out.iter().filter(|line| line.starts_with("address: ")).count(), 2);
    assert_eq!(out.iter().filter(|line| line.starts_with("pc: ")).count(), out.len() - 2);
}

#[test]
fn value_is_moved_from_the_sender_to_the_recipient() {
    let mut tx = transfer(100_000);
    tx.value = number(250);
    let pre = vec![(address(1), rich(1_000))];
    let after = root_of(vec![(address(1), plain(750, 1)), (address(2), plain(250, 0))]);
    let mut out = Vec::new();
    assert_eq!(run_test("file", "name", fixture(pre, tx, after, None), false, &mut out), Ok(()));
}
