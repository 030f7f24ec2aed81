//! The lines of text that describe a traced run and a final state.

use crate::backend::{state_view, storage_view, Account, AccountView};
use crate::vm::Peek;
use crate::word::H160;
use primitive_types::U256 as Uint;
use std::collections::BTreeMap;
use vstd::prelude::*;

verus! {

/// The line for one step of a traced run: the position, the instruction that is next,
/// and the gas that is left, in hexadecimal.
pub uninterp spec fn trace_text(position: usize, opcode: Option<u8>, gas: nat) -> Seq<char>;

/// The line for one account of a state: the address, the balance and the nonce in
/// decimal, the code as given, and the storage by ascending key.
pub uninterp spec fn dump_text(
    address: Seq<u8>,
    balance: nat,
    nonce: nat,
    code: Seq<char>,
    storage: Seq<(Seq<u8>, Seq<u8>)>,
) -> Seq<char>;

/// The hexadecimal digit for a number below 16.
pub open spec fn hex_digit(n: int) -> char {
    "0123456789abcdef"@[n]
}

/// Two lower-case hexadecimal digits for each byte, in order.
pub open spec fn hex_of(bytes: Seq<u8>) -> Seq<char>
    decreases bytes.len(),
{
    if bytes.len() == 0 {
        Seq::empty()
    } else {
        hex_of(bytes.drop_last()).push(hex_digit(bytes.last() as int / 16)).push(
            hex_digit(bytes.last() as int % 16),
        )
    }
}

/// `bytes` in hexadecimal.
///
/// Trusted: calls `hex::encode`, which writes two lower-case digits for each byte.
/// The contract says so.
#[verifier::external_body]
fn hex_encode(bytes: &Vec<u8>) -> (text: String)
    ensures
        text@ == hex_of(bytes@),
{
    hex::encode(bytes)
}

/// The line for one step of a traced run.
///
/// Trusted: calls `format!` with the position in decimal, the instruction in the
/// `Debug` form of an optional `evm::interpreter::Opcode`, and the gas in the
/// lower-case hexadecimal form of `primitive_types::U256`. The text depends on the
/// three values alone. The contract gives it a name.
#[verifier::external_body]
fn trace_line(peek: &Peek) -> (line: String)
    ensures
        line@ == trace_text(peek.position, peek.opcode, peek.gas@),
{
    let opcode = peek.opcode.map(evm::interpreter::Opcode);
    format!("pc: {}, opcode: {:?}, gas: 0x{:x}", peek.position, opcode, Uint(peek.gas.0))
}

/// The line for one account of a state, with `code` as the text for its code.
///
/// Trusted: calls `format!` with the address in the `Debug` form of
/// `primitive_types::H160`, the balance and the nonce in the decimal form of
/// `primitive_types::U256`, and the storage in the `Debug` form of a `BTreeMap` of
/// `primitive_types::H256`. The text depends on these values alone. The contract
/// gives it a name.
#[verifier::external_body]
fn dump_line(address: &H160, account: &Account, code: &String) -> (line: String)
    ensures
        line@ == dump_text(
            address@,
            account.balance@,
            account.nonce@,
            code@,
            storage_view(account.storage@),
        ),
{
    let words = account.storage.iter().map(|e| (e.0.0.into(), e.1.0.into()));
    let storage: BTreeMap<primitive_types::H256, primitive_types::H256> = words.collect();
    let (address, balance) = (primitive_types::H160(address.0), Uint(account.balance.0));
    let nonce = Uint(account.nonce.0);
    format!("address: {address:?}, balance: {balance}, nonce: {nonce}, code: 0x{code}, storage: {storage:?}")
}

/// The text of each line of a list.
pub open spec fn texts(lines: Seq<String>) -> Seq<Seq<char>> {
    Seq::new(lines.len(), |i: int| lines[i]@)
}

/// The lines for the steps of a traced run.
pub open spec fn trace_texts(steps: Seq<Peek>) -> Seq<Seq<char>> {
    Seq::new(
        steps.len(),
        |i: int| trace_text(steps[i].position, steps[i].opcode, steps[i].gas@),
    )
}

/// The lines for the accounts of a state.
pub open spec fn dump_texts(state: Seq<(Seq<u8>, AccountView)>) -> Seq<Seq<char>> {
    Seq::new(
        state.len(),
        |i: int|
            dump_text(
                state[i].0,
                state[i].1.balance,
                state[i].1.nonce,
                hex_of(state[i].1.code),
                state[i].1.storage,
            ),
    )
}

/// One line for each step of a traced run, in the order of the steps.
pub fn trace_lines(steps: &Vec<Peek>) -> (lines: Vec<String>)
    ensures
        texts(lines@) == trace_texts(steps@),
{
    let mut lines: Vec<String> = Vec::new();
    let mut i: usize = 0;
    while i < steps.len()
        invariant
            i <= steps.len(),
            lines@.len() == i,
            forall|j: int|
                0 <= j < i ==> (#[trigger] lines@[j])@ == trace_text(
                    steps@[j].position,
                    steps@[j].opcode,
                    steps@[j].gas@,
                ),
        decreases steps.len() - i,
    {
        lines.push(trace_line(&steps[i]));
        i = i + 1;
    }
    assert(texts(lines@) =~= trace_texts(steps@));
    lines
}

/// One line for each account of `state`, in the order of the accounts, with the code in
/// hexadecimal.
pub fn dump_lines(state: &Vec<(H160, Account)>) -> (lines: Vec<String>)
    ensures
        texts(lines@) == dump_texts(state_view(state@)),
        lines@.len() == state@.len(),
{
    let mut lines: Vec<String> = Vec::new();
    let mut i: usize = 0;
    while i < state.len()
        invariant
            i <= state.len(),
            lines@.len() == i,
            forall|j: int|
                0 <= j < i ==> (#[trigger] lines@[j])@ == dump_text(
                    state@[j].0@,
                    state@[j].1.balance@,
                    state@[j].1.nonce@,
                    hex_of(state@[j].1.code@),
                    storage_view(state@[j].1.storage@),
                ),
        decreases state.len() - i,
    {
        let code = hex_encode(&state[i].1.code);
        lines.push(dump_line(&state[i].0, &state[i].1, &code));
        i = i + 1;
    }
    assert(texts(lines@) =~= dump_texts(state_view(state@)));
    lines
}

} // verus!
