//! Transactions that the fullnode is asked to build.
use crate::text::{decimal, numeral};
use crate::values::{ObjectID, SuiAddress};
use vstd::prelude::*;

verus! {

/// A transaction to be built by the fullnode.
#[derive(Clone, Copy, Debug, PartialEq, Eq)]
pub enum RemoteCall {
    /// Moves a whole object to `recipient`.
    TransferObject {
        signer: SuiAddress,
        object: ObjectID,
        gas: Option<ObjectID>,
        gas_budget: u64,
        recipient: SuiAddress,
    },
    /// Sends SUI out of one coin; all of it where no amount is given.
    TransferSui {
        signer: SuiAddress,
        object: ObjectID,
        gas_budget: u64,
        recipient: SuiAddress,
        amount: Option<u64>,
    },
}

/// One parameter of a JSON-RPC call.
#[derive(Debug, PartialEq, Eq)]
pub enum RpcParam {
    Address(SuiAddress),
    Object(ObjectID),
    OptionalObject(Option<ObjectID>),
    Text(String),
    OptionalNumber(Option<u64>),
}

impl RpcParam {
    /// Whether this is the decimal text of `n`.
    pub open spec fn is_numeral(self, n: u64) -> bool {
        self matches RpcParam::Text(t) && t@ == numeral(n as nat)
    }
}

impl RemoteCall {
    pub open spec fn method_name(self) -> &'static str {
        match self {
            RemoteCall::TransferObject { .. } => "unsafe_transferObject",
            RemoteCall::TransferSui { .. } => "unsafe_transferSui",
        }
    }

    /// The JSON-RPC method that builds the transaction.
    pub fn method(&self) -> (r: &'static str)
        ensures
            r == self.method_name(),
    {
        match self {
            RemoteCall::TransferObject { .. } => "unsafe_transferObject",
            RemoteCall::TransferSui { .. } => "unsafe_transferSui",
        }
    }

    /// The parameters of that method, in its order.
    pub fn params(&self) -> (r: Vec<RpcParam>)
        ensures
            r@.len() == 5,
            match *self {
                RemoteCall::TransferObject { signer, object, gas, gas_budget, recipient } => {
                    &&& r@[0] == RpcParam::Address(signer)
                    &&& r@[1] == RpcParam::Object(object)
                    &&& r@[2] == RpcParam::OptionalObject(gas)
                    &&& r@[3].is_numeral(gas_budget)
                    &&& r@[3] matches RpcParam::Text(t) && t@ == numeral(gas_budget as nat)
                    &&& r@[4] == RpcParam::Address(recipient)
                },
                RemoteCall::TransferSui { signer, object, gas_budget, recipient, amount } => {
                    &&& r@[0] == RpcParam::Address(signer)
                    &&& r@[1] == RpcParam::Object(object)
                    &&& r@[2].is_numeral(gas_budget)
                    &&& r@[2] matches RpcParam::Text(t) && t@ == numeral(gas_budget as nat)
                    &&& r@[3] == RpcParam::Address(recipient)
                    &&& r@[4] == RpcParam::OptionalNumber(amount)
                },
            },
    {
        match self {
            RemoteCall::TransferObject { signer, object, gas, gas_budget, recipient } => vec![
                RpcParam::Address(*signer),
                RpcParam::Object(*object),
                RpcParam::OptionalObject(*gas),
                RpcParam::Text(decimal(*gas_budget)),
                RpcParam::Address(*recipient),
            ],
            RemoteCall::TransferSui { signer, object, gas_budget, recipient, amount } => vec![
                RpcParam::Address(*signer),
                RpcParam::Object(*object),
                RpcParam::Text(decimal(*gas_budget)),
                RpcParam::Address(*recipient),
                RpcParam::OptionalNumber(*amount),
            ],
        }
    }
}

/// An object is transferred by one method, SUI by another.
pub proof fn each_transfer_has_its_method(call: RemoteCall)
    ensures
        call is TransferObject ==> call.method_name() == "unsafe_transferObject",
        call is TransferSui ==> call.method_name() == "unsafe_transferSui",
{
}

} // verus!
