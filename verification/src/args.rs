//! The arguments of one transaction, as the interpreter takes them.

use crate::backend::copy_of;
use crate::types::TestTransaction;
use crate::word::{H160, H256, U256};
use vstd::prelude::*;

verus! {

/// What a `ExecutionArgs` holds, as plain numbers and byte strings.
pub struct ArgsView {
    pub caller: Seq<u8>,
    pub address: Option<Seq<u8>>,
    pub value: nat,
    pub data: Seq<u8>,
    pub gas_limit: nat,
    pub gas_price: nat,
    pub access_list: Seq<(Seq<u8>, Seq<Seq<u8>>)>,
}

/// The arguments of a transaction. With an `address` it calls that account with `data`
/// as input; without one it creates a contract from `data`.
#[derive(Debug, PartialEq, Eq)]
pub struct ExecutionArgs {
    pub caller: H160,
    pub address: Option<H160>,
    pub value: U256,
    pub data: Vec<u8>,
    pub gas_limit: U256,
    pub gas_price: U256,
    /// Addresses, each with storage keys, that the transaction declares it will touch.
    pub access_list: Vec<(H160, Vec<H256>)>,
}

/// The bytes of an optional address.
pub open spec fn optional_address(address: Option<H160>) -> Option<Seq<u8>> {
    match address {
        Some(a) => Some(a@),
        None => None,
    }
}

impl View for ExecutionArgs {
    type V = ArgsView;

    open spec fn view(&self) -> ArgsView {
        ArgsView {
            caller: self.caller@,
            address: optional_address(self.address),
            value: self.value@,
            data: self.data@,
            gas_limit: self.gas_limit@,
            gas_price: self.gas_price@,
            access_list: Seq::new(
                self.access_list@.len(),
                |i: int|
                    (
                        self.access_list@[i].0@,
                        Seq::new(
                            self.access_list@[i].1@.len(),
                            |j: int| self.access_list@[i].1@[j]@,
                        ),
                    ),
            ),
        }
    }
}

/// The arguments that the transaction `tx` of a fixture stands for.
pub open spec fn args_of(tx: TestTransaction) -> ArgsView {
    ArgsView {
        caller: tx.sender@,
        address: optional_address(tx.to),
        value: tx.value@,
        data: tx.data@,
        gas_limit: tx.gas_limit@,
        gas_price: tx.gas_price@,
        access_list: Seq::empty(),
    }
}

impl ExecutionArgs {
    /// The arguments for the transaction of a fixture: each field as the fixture gives
    /// it, and an empty access list.
    pub fn new(tx: &TestTransaction) -> (args: ExecutionArgs)
        ensures
            args@ == args_of(*tx),
            args.caller == tx.sender,
            args.address == tx.to,
            args.value == tx.value,
            args.gas_limit == tx.gas_limit,
            args.gas_price == tx.gas_price,
    {
        let args = ExecutionArgs {
            caller: tx.sender,
            address: tx.to,
            value: tx.value,
            data: copy_of(&tx.data),
            gas_limit: tx.gas_limit,
            gas_price: tx.gas_price,
            access_list: Vec::new(),
        };
        assert(args@.access_list =~= Seq::empty());
        args
    }
}

} // verus!
