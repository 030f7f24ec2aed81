use jsontests::args::ExecutionArgs;
use jsontests::backend::{copy_of, Account, Backend, Environment, Layer, Log};
use jsontests::context::{environment, fork_config};
use jsontests::driver::{run, trace, HEAP_DEPTH};
use jsontests::error::{Error, TestError};
use jsontests::hash::{state_root, storage_root};
use jsontests::report::{dump_lines, trace_lines};
use jsontests::state::{materialize, materialize_account, materialize_storage};
use jsontests::types::{Fork, TestEnv, TestPostState, TestPreState, TestTransaction};
use jsontests::verdict::verify;
use jsontests::vm::Peek;
use jsontests::word::{H160, H256, U256};

fn addr(last: u8) -> H160 {
    let mut bytes = [0u8; 20];
    bytes[19] = last;
    H160(bytes)
}

fn num(n: u64) -> U256 {
    U256([n, 0, 0, 0])
}

fn word(last: u8) -> H256 {
    let mut bytes = [0u8; 32];
    bytes[31] = last;
    H256(bytes)
}

fn block() -> TestEnv {
    TestEnv {
        current_coinbase: addr(0xc0),
        current_difficulty: num(0x20000),
        current_gas_limit: num(10_000_000),
        current_number: num(7),
        current_random: word(9),
        current_timestamp: num(1000),
    }
}

fn account(balance: u64, nonce: u64, code: Vec<u8>, storage: Vec<(H256, H256)>) -> Account {
    Account { balance: num(balance), code, nonce: num(nonce), original_storage: storage.clone(), storage }
}

fn backend(state: Vec<(H160, Account)>) -> Backend {
    Backend::new(environment(&block()), state)
}

fn call(gas_limit: u64) -> TestTransaction {
    TestTransaction {
        data: vec![1, 2, 3],
        gas_limit: num(gas_limit),
        gas_price: num(0),
        sender: addr(1),
        to: Some(addr(2)),
        value: num(0),
    }
}

const EMPTY_ROOT: [u8; 32] = [
    0x56, 0xe8, 0x1f, 0x17, 0x1b, 0xcc, 0x55, 0xa6, 0xff, 0x83, 0x45, 0xe6, 0x92, 0xc0, 0xf8, 0x6e,
    0x5b, 0x48, 0xe0, 0x1b, 0x99, 0x6c, 0xad, 0xc0, 0x01, 0x62, 0x2f, 0xb5, 0xe3, 0x63, 0xb4, 0x21,
];

#[test]
fn integer_becomes_a_big_endian_word() {
    let v = U256([0x0102030405060708, 0x1112131415161718, 0x2122232425262728, 0x3132333435363738]);
    let expected = [
        0x31, 0x32, 0x33, 0x34, 0x35, 0x36, 0x37, 0x38, 0x21, 0x22, 0x23, 0x24, 0x25, 0x26, 0x27, 0x28,
        0x11, 0x12, 0x13, 0x14, 0x15, 0x16, 0x17, 0x18, 0x01, 0x02, 0x03, 0x04, 0x05, 0x06, 0x07, 0x08,
    ];
    assert_eq!(v.to_word(), H256(expected));
    assert_eq!(num(1).to_word(), word(1));
    assert_eq!(U256::zero().to_word(), H256([0; 32]));
    assert_eq!(U256([u64::MAX; 4]).to_word(), H256([0xff; 32]));
}

#[test]
fn word_becomes_the_integer_it_spells() {
    let mut bytes = [0u8; 32];
    bytes[23] = 1;
    assert_eq!(H256(bytes).to_uint(), U256([0, 1, 0, 0]));
    assert_eq!(word(0x2a).to_uint(), num(0x2a));
    assert_eq!(H256([0xff; 32]).to_uint(), U256([u64::MAX; 4]));
}

#[test]
fn key_and_value_survive_the_way_to_words_and_back() {
    let pairs = [
        (num(0), num(0)),
        (num(1), num(u64::MAX)),
        (U256([5, 6, 7, 8]), U256([u64::MAX, 0, u64::MAX, 0])),
        (U256([u64::MAX; 4]), U256([0, 0, 0, 1])),
    ];
    for (key, value) in pairs {
        assert_eq!(key.to_word().to_uint(), key);
        assert_eq!(value.to_word().to_uint(), value);
    }
}

#[test]
fn same_tells_equal_values_from_different_ones() {
    assert!(num(3).same(&num(3)));
    assert!(!num(3).same(&U256([3, 0, 0, 1])));
    assert!(addr(3).same(&addr(3)));
    assert!(!addr(3).same(&addr(4)));
    assert!(word(3).same(&word(3)));
    assert!(!word(3).same(&H256([3; 32])));
    assert_eq!(U256::zero(), U256([0; 4]));
}

#[test]
fn only_berlin_has_a_configuration() {
    assert!(fork_config(Fork::Berlin).is_ok());
    for fork in [Fork::Frontier, Fork::Istanbul, Fork::London, Fork::Cancun] {
        assert!(matches!(fork_config(fork), Err(Error::UnsupportedFork)));
    }
}

#[test]
fn environment_takes_the_block_and_leaves_the_rest_empty() {
    let expected = Environment {
        block_hashes: Vec::new(),
        block_number: num(7),
        block_coinbase: addr(0xc0),
        block_timestamp: num(1000),
        block_difficulty: num(0x20000),
        block_randomness: Some(word(9)),
        block_gas_limit: num(10_000_000),
        block_base_fee_per_gas: num(0),
        chain_id: num(0),
    };
    assert_eq!(environment(&block()), expected);
}

#[test]
fn arguments_take_the_transaction_and_an_empty_access_list() {
    let mut tx = call(50_000);
    tx.value = num(12);
    tx.gas_price = num(3);
    let expected = ExecutionArgs {
        caller: addr(1),
        address: Some(addr(2)),
        value: num(12),
        data: vec![1, 2, 3],
        gas_limit: num(50_000),
        gas_price: num(3),
        access_list: Vec::new(),
    };
    assert_eq!(ExecutionArgs::new(&tx), expected);
    tx.to = None;
    assert_eq!(ExecutionArgs::new(&tx).address, None);
}

#[test]
fn materialize_converts_storage_and_copies_the_rest() {
    let pre = vec![
        (
            addr(2),
            TestPreState {
                balance: num(10),
                code: vec![0x60, 0x00],
                nonce: num(4),
                storage: vec![(num(1), num(2)), (U256([0, 1, 0, 0]), num(3)), (num(1), num(5))],
            },
        ),
        (addr(1), TestPreState { balance: num(0), code: Vec::new(), nonce: num(0), storage: Vec::new() }),
    ];
    let mut high = [0u8; 32];
    high[23] = 1;
    let words = vec![(word(1), word(2)), (H256(high), word(3)), (word(1), word(5))];
    let expected = vec![
        (addr(2), account(10, 4, vec![0x60, 0x00], words.clone())),
        (addr(1), account(0, 0, Vec::new(), Vec::new())),
    ];
    let state = materialize(&pre);
    assert_eq!(state, expected);
    assert_eq!(state[0].1.storage, state[0].1.original_storage);
    assert_eq!(materialize_storage(&pre[0].1.storage), words);
    assert_eq!(materialize_account(&pre[0].1), expected[0].1);
    assert_eq!(materialize(&Vec::new()), Vec::new());
}

#[test]
fn materializing_twice_gives_equal_states_and_fingerprints() {
    let pre = vec![(
        addr(2),
        TestPreState { balance: num(10), code: vec![0x00], nonce: num(4), storage: vec![(num(1), num(2))] },
    )];
    let first = backend(materialize(&pre));
    let second = backend(materialize(&pre));
    assert_eq!(first, second);
    assert_eq!(state_root(&first), state_root(&second));
}

#[test]
fn new_backend_has_one_untouched_layer() {
    let state = vec![(addr(1), account(1, 0, Vec::new(), Vec::new()))];
    let b = backend(state.clone());
    assert_eq!(b.environment, environment(&block()));
    assert_eq!(
        b.layers,
        vec![Layer { state, logs: Vec::new(), suicides: Vec::new(), hots: Vec::new() }]
    );
}

#[test]
fn copy_of_a_backend_is_equal_and_independent() {
    let first = backend(vec![(addr(1), account(1, 0, vec![1, 2], vec![(word(1), word(2))]))]);
    let mut copy = first.clone();
    assert_eq!(copy, first);
    copy.layers[0].state[0].1.code.push(3);
    copy.layers[0].state[0].1.storage.clear();
    copy.environment.block_hashes.push((num(1), word(1)));
    assert_eq!(first.layers[0].state[0].1.code, vec![1, 2]);
    assert_eq!(first.layers[0].state[0].1.storage, vec![(word(1), word(2))]);
    assert!(first.environment.block_hashes.is_empty());
    assert_eq!(copy_of(&vec![1u8, 2, 3]), vec![1u8, 2, 3]);
}

#[test]
fn empty_storage_and_empty_state_have_the_empty_trie_root() {
    assert_eq!(storage_root(&Vec::new()), H256(EMPTY_ROOT));
    assert_eq!(state_root(&backend(Vec::new())), H256(EMPTY_ROOT));
}

#[test]
fn fingerprint_is_the_secure_trie_root_of_the_encoded_accounts() {
    let storage = vec![(word(1), word(2)), (word(3), H256([0xff; 32]))];
    let code = vec![0x60, 0x01, 0x00];
    let state = vec![(addr(1), account(1000, 3, Vec::new(), Vec::new())), (addr(2), account(0, 1, code.clone(), storage))];
    let slot = |k: u8, v: primitive_types::U256| (word(k).0.to_vec(), rlp::encode(&v).to_vec());
    let slots = vec![slot(1, primitive_types::U256::from(2)), slot(3, primitive_types::U256::MAX)];
    let storage_root = ethereum::util::sec_trie_root(slots);
    assert_eq!(storage_root.0, storage_root_of_second(&state));
    let leaf = |nonce: u64, balance: u64, root: [u8; 32], code: &[u8]| {
        let mut stream = rlp::RlpStream::new_list(4);
        stream.append(&nonce).append(&balance).append(&root.to_vec());
        stream.append(&<sha3::Keccak256 as sha3::Digest>::digest(code).to_vec());
        stream.out().to_vec()
    };
    let accounts = vec![
        (addr(1).0.to_vec(), leaf(3, 1000, EMPTY_ROOT, &[])),
        (addr(2).0.to_vec(), leaf(1, 0, storage_root.0, &code)),
    ];
    assert_eq!(state_root(&backend(state)).0, ethereum::util::sec_trie_root(accounts).0);
}

fn storage_root_of_second(state: &[(H160, Account)]) -> [u8; 32] {
    storage_root(&state[1].1.storage).0
}

#[test]
fn fingerprint_tells_states_apart() {
    let base = account(5, 1, vec![0x00], vec![(word(1), word(2))]);
    let root = |a: Account| state_root(&backend(vec![(addr(1), a)]));
    let reference = root(base.clone());
    let mut changed = base.clone();
    changed.balance = num(6);
    assert_ne!(root(changed), reference);
    let mut changed = base.clone();
    changed.nonce = num(2);
    assert_ne!(root(changed), reference);
    let mut changed = base.clone();
    changed.code = vec![0x01];
    assert_ne!(root(changed), reference);
    let mut changed = base.clone();
    changed.storage = vec![(word(1), word(3))];
    assert_ne!(root(changed), reference);
    let mut changed = base.clone();
    changed.storage = vec![(word(2), word(2))];
    assert_ne!(root(changed), reference);
    assert_ne!(state_root(&backend(vec![(addr(2), base.clone())])), reference);
    let mut changed = base.clone();
    changed.original_storage = Vec::new();
    assert_eq!(root(changed), reference);
}

#[test]
fn fingerprint_does_not_depend_on_the_order_of_the_accounts() {
    let a = (addr(1), account(5, 1, Vec::new(), vec![(word(1), word(2)), (word(2), word(3))]));
    let b = (addr(2), account(6, 0, vec![0x00], Vec::new()));
    let mut swapped = a.clone();
    swapped.1.storage.reverse();
    assert_eq!(
        state_root(&backend(vec![a.clone(), b.clone()])),
        state_root(&backend(vec![b, swapped]))
    );
}

#[test]
fn dump_has_one_line_for_each_account() {
    let state = vec![
        (addr(1), account(1_000_000, 1, Vec::new(), Vec::new())),
        (addr(0xab), account(0, 2, vec![0x60, 0x01, 0xff, 0x0a], vec![(word(2), word(3)), (word(1), word(2))])),
    ];
    let zeros = |n: usize| "00".repeat(n);
    let expected = vec![
        format!("address: 0x{}01, balance: 1000000, nonce: 1, code: 0x, storage: {{}}", zeros(19)),
        format!(
            "address: 0x{}ab, balance: 0, nonce: 2, code: 0x6001ff0a, storage: {{0x{}01: 0x{}02, 0x{}02: 0x{}03}}",
            zeros(19),
            zeros(31),
            zeros(31),
            zeros(31),
            zeros(31)
        ),
    ];
    assert_eq!(dump_lines(&state), expected);
    assert_eq!(dump_lines(&Vec::new()), Vec::<String>::new());
}

#[test]
fn trace_has_one_line_for_each_step() {
    let steps = vec![
        Peek { position: 0, opcode: Some(0x60), gas: num(79_000) },
        Peek { position: 12, opcode: None, gas: U256([0, 1, 0, 0]) },
    ];
    let expected = vec![
        "pc: 0, opcode: Some(Opcode(96)), gas: 0x13498".to_string(),
        "pc: 12, opcode: None, gas: 0x10000000000000000".to_string(),
    ];
    assert_eq!(trace_lines(&steps), expected);
    assert_eq!(trace_lines(&Vec::new()), Vec::<String>::new());
}

#[test]
fn verify_follows_the_expected_exception_before_the_fingerprint() {
    let state = backend(vec![(addr(1), account(5, 1, Vec::new(), Vec::new()))]);
    let right = state_root(&state);
    let wrong = H256([0x22; 32]);
    let post = |hash: H256, expect: bool| TestPostState {
        hash,
        expect_exception: if expect { Some("TR_NoFunds".to_string()) } else { None },
    };
    let mismatch = Err(Error::Test(TestError::StateMismatch));
    let unexpected = Err(Error::Test(TestError::ExpectException));
    let cases = [
        (post(right, true), true, Ok(())),
        (post(wrong, true), true, Ok(())),
        (post(right, true), false, unexpected),
        (post(wrong, true), false, unexpected),
        (post(right, false), false, Ok(())),
        (post(right, false), true, Ok(())),
        (post(wrong, false), false, mismatch),
        (post(wrong, false), true, mismatch),
    ];
    for (post, failed, expected) in cases {
        for debug in [false, true] {
            let mut out = vec!["kept".to_string()];
            assert_eq!(verify(&post, failed, &state, debug, &mut out), expected);
            let dumped = debug && expected == mismatch;
            assert_eq!(out.len(), if dumped { 2 } else { 1 });
            assert_eq!(out[0], "kept");
            assert_eq!(out[1..], if dumped { dump_lines(&state.layers[0].state) } else { Vec::new() });
        }
    }
}

#[test]
fn verify_passes_the_empty_state_with_the_empty_fingerprint() {
    let post = TestPostState { hash: H256(EMPTY_ROOT), expect_exception: None };
    let mut out = Vec::new();
    assert_eq!(verify(&post, false, &backend(Vec::new()), true, &mut out), Ok(()));
    assert!(out.is_empty());
}

#[test]
fn run_leaves_the_final_state_as_a_new_starting_state() {
    let config = fork_config(Fork::Berlin).unwrap();
    let code = vec![0x60, 0x07, 0x60, 0x01, 0x55, 0x00];
    let pre = vec![
        (addr(2), account(0, 1, code.clone(), vec![(word(9), word(9))])),
        (addr(1), account(1_000_000, 0, Vec::new(), Vec::new())),
    ];
    let mut b = backend(pre);
    let failed = run(&config, &ExecutionArgs::new(&call(100_000)), &mut b);
    assert!(!failed);
    let expected = vec![
        (addr(1), account(1_000_000, 1, Vec::new(), Vec::new())),
        (addr(2), account(0, 1, code, vec![(word(1), word(7)), (word(9), word(9))])),
    ];
    assert_eq!(b, backend(expected));
    assert_eq!(HEAP_DEPTH, 4);
}

#[test]
fn run_reports_a_failed_transaction_as_a_result() {
    let config = fork_config(Fork::Berlin).unwrap();
    let mut b = backend(vec![(addr(1), account(1_000_000, 0, Vec::new(), Vec::new()))]);
    assert!(run(&config, &ExecutionArgs::new(&call(100)), &mut b));
    assert_eq!(b, backend(vec![(addr(1), account(1_000_000, 0, Vec::new(), Vec::new()))]));
    let mut tx = call(100_000);
    tx.value = num(2_000_000);
    let mut b = backend(vec![(addr(1), account(1_000_000, 0, Vec::new(), Vec::new()))]);
    assert!(run(&config, &ExecutionArgs::new(&tx), &mut b));
}

#[test]
fn trace_records_the_machine_before_each_step() {
    let config = fork_config(Fork::Berlin).unwrap();
    let pre = vec![
        (addr(1), account(1_000_000, 0, Vec::new(), Vec::new())),
        (addr(2), account(0, 1, vec![0x60, 0x01, 0x00], Vec::new())),
    ];
    let mut tx = call(100_000);
    tx.data = Vec::new();
    let steps = trace(&config, &ExecutionArgs::new(&tx), backend(pre));
    let seen: Vec<(usize, Option<u8>, U256)> = steps.iter().map(|s| (s.position, s.opcode, s.gas)).collect();
    let expected =
        vec![(0, Some(0x60), num(79_000)), (2, Some(0x00), num(78_997)), (3, None, num(78_997))];
    assert_eq!(seen, expected);
}

#[test]
fn trace_of_a_transaction_that_cannot_start_is_empty() {
    let config = fork_config(Fork::Berlin).unwrap();
    let steps = trace(&config, &ExecutionArgs::new(&call(100)), backend(Vec::new()));
    assert!(steps.is_empty());
}

#[test]
fn errors_describe_themselves() {
    assert_eq!(Error::UnsupportedFork.message(), "unsupported fork");
    assert_eq!(Error::Test(TestError::StateMismatch).message(), "test error");
    assert_eq!(TestError::StateMismatch.message(), "state root is different");
    assert_eq!(TestError::ExpectException.message(), "expect error, but got okay");
    assert_eq!(Error::from(TestError::StateMismatch), Error::Test(TestError::StateMismatch));
    assert_eq!(Error::from(TestError::ExpectException), Error::Test(TestError::ExpectException));
}

#[test]
fn starting_states_are_told_from_others() {
    let good = backend(vec![(addr(1), account(1, 0, Vec::new(), vec![(word(1), word(2))]))]);
    assert!(good.check_initial());
    assert!(good.layers[0].state[0].1.check_untouched());
    assert!(backend(Vec::new()).check_initial());
    let mut touched = good.clone();
    touched.layers[0].state[0].1.storage[0].1 = word(3);
    assert!(!touched.layers[0].state[0].1.check_untouched());
    assert!(!touched.check_initial());
    let mut longer = good.clone();
    longer.layers[0].state[0].1.original_storage.push((word(5), word(6)));
    assert!(!longer.check_initial());
    let mut hot = good.clone();
    hot.layers[0].hots.push((addr(1), None));
    assert!(!hot.check_initial());
    let mut destroyed = good.clone();
    destroyed.layers[0].suicides.push(addr(1));
    assert!(!destroyed.check_initial());
    let mut logged = good.clone();
    logged.layers[0].logs.push(Log { address: addr(1), topics: vec![word(1)], data: vec![1] });
    assert!(!logged.check_initial());
    let mut two = good.clone();
    let extra = two.layers[0].clone();
    two.layers.push(extra);
    assert!(!two.check_initial());
    let mut none = good.clone();
    none.layers.clear();
    assert!(!none.check_initial());
}
