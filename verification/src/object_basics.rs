//! Calls of the functions of a published `object_basics` package.
use crate::values::{ObjectRef, SuiAddress};
use vstd::prelude::*;

verus! {

/// A call of one function of the module.
#[derive(Clone, Copy, Debug, PartialEq, Eq)]
pub enum ObjectBasicsCall {
    /// Creates an object that holds `value` and gives it to `recipient`.
    Create { value: u64, recipient: SuiAddress },
    /// Puts `child` into a dynamic object field of `parent`.
    AddOfield { parent: ObjectRef, child: ObjectRef },
    /// Takes the dynamic object field off `parent`.
    RemoveOfield { parent: ObjectRef },
}

/// One argument of a Move call: a value in BCS, or an object of the sender's.
#[derive(Debug, PartialEq, Eq)]
pub enum CallArg {
    Pure(Vec<u8>),
    ImmOrOwnedObject(ObjectRef),
}

/// The eight bytes of `n`, the least significant one first.
pub open spec fn little_endian(n: u64) -> Seq<u8> {
    seq![
        (n % 0x100) as u8,
        (n / 0x100 % 0x100) as u8,
        (n / 0x1_0000 % 0x100) as u8,
        (n / 0x100_0000 % 0x100) as u8,
        (n / 0x1_0000_0000 % 0x100) as u8,
        (n / 0x100_0000_0000 % 0x100) as u8,
        (n / 0x1_0000_0000_0000 % 0x100) as u8,
        (n / 0x100_0000_0000_0000 % 0x100) as u8,
    ]
}

/// `bcs::to_bytes` on a number of 64 bits. BCS stores it as its eight bytes,
/// the least significant one first; serializing it cannot fail.
#[verifier::external_body]
fn number_to_bcs(value: u64) -> (r: Vec<u8>)
    ensures
        r@ == little_endian(value),
{
    bcs::to_bytes(&value).unwrap()
}

/// `bcs::to_bytes` on 32 bytes. BCS stores an array of fixed length as its
/// items, with no length before them; serializing it cannot fail.
#[verifier::external_body]
fn bytes_to_bcs(bytes: &[u8; 32]) -> (r: Vec<u8>)
    ensures
        r@ == bytes@,
{
    bcs::to_bytes(bytes).unwrap()
}

impl CallArg {
    /// Whether this is the plain value with these bytes.
    pub open spec fn is_pure(self, bytes: Seq<u8>) -> bool {
        self matches CallArg::Pure(b) && b@ == bytes
    }
}

impl ObjectBasicsCall {
    pub open spec fn function_name(self) -> &'static str {
        match self {
            ObjectBasicsCall::Create { .. } => "create",
            ObjectBasicsCall::AddOfield { .. } => "add_ofield",
            ObjectBasicsCall::RemoveOfield { .. } => "remove_ofield",
        }
    }

    /// The module that the functions are in.
    pub fn module() -> (r: &'static str)
        ensures
            r == "object_basics",
    {
        "object_basics"
    }

    /// The function that is called.
    pub fn function(&self) -> (r: &'static str)
        ensures
            r == self.function_name(),
    {
        match self {
            ObjectBasicsCall::Create { .. } => "create",
            ObjectBasicsCall::AddOfield { .. } => "add_ofield",
            ObjectBasicsCall::RemoveOfield { .. } => "remove_ofield",
        }
    }

    /// The arguments of the call, in order.
    pub fn args(&self) -> (r: Vec<CallArg>)
        ensures
            match *self {
                ObjectBasicsCall::Create { value, recipient } => {
                    &&& r@.len() == 2
                    &&& r@[0].is_pure(little_endian(value))
                    &&& r@[1].is_pure(recipient.bytes@)
                    &&& r@[0] matches CallArg::Pure(b) && b@ == little_endian(value)
                    &&& r@[1] matches CallArg::Pure(b) && b@ == recipient.bytes@
                },
                ObjectBasicsCall::AddOfield { parent, child } => {
                    &&& r@.len() == 2
                    &&& r@[0] == CallArg::ImmOrOwnedObject(parent)
                    &&& r@[1] == CallArg::ImmOrOwnedObject(child)
                },
                ObjectBasicsCall::RemoveOfield { parent } => {
                    &&& r@.len() == 1
                    &&& r@[0] == CallArg::ImmOrOwnedObject(parent)
                },
            },
    {
        match self {
            ObjectBasicsCall::Create { value, recipient } => vec![
                CallArg::Pure(number_to_bcs(*value)),
                CallArg::Pure(bytes_to_bcs(&recipient.bytes)),
            ],
            ObjectBasicsCall::AddOfield { parent, child } => vec![
                CallArg::ImmOrOwnedObject(*parent),
                CallArg::ImmOrOwnedObject(*child),
            ],
            ObjectBasicsCall::RemoveOfield { parent } => vec![CallArg::ImmOrOwnedObject(*parent)],
        }
    }
}

/// Each call is one of the function of its name.
pub proof fn each_call_has_its_function(call: ObjectBasicsCall)
    ensures
        call is Create ==> call.function_name() == "create",
        call is AddOfield ==> call.function_name() == "add_ofield",
        call is RemoveOfield ==> call.function_name() == "remove_ofield",
{
}

/// The eight bytes of a number are its digits to the base 256, the least
/// significant one first.
pub proof fn bytes_stand_for_their_number(n: u64)
    ensures
        little_endian(n).len() == 8,
        n == little_endian(n)[0] + 0x100 * little_endian(n)[1] + 0x1_0000 * little_endian(n)[2]
            + 0x100_0000 * little_endian(n)[3] + 0x1_0000_0000 * little_endian(n)[4]
            + 0x100_0000_0000 * little_endian(n)[5] + 0x1_0000_0000_0000 * little_endian(n)[6]
            + 0x100_0000_0000_0000 * little_endian(n)[7],
{
    assert(n / 0x1_0000 == n / 0x100 / 0x100) by (bit_vector);
    assert(n / 0x100_0000 == n / 0x1_0000 / 0x100) by (bit_vector);
    assert(n / 0x1_0000_0000 == n / 0x100_0000 / 0x100) by (bit_vector);
    assert(n / 0x100_0000_0000 == n / 0x1_0000_0000 / 0x100) by (bit_vector);
    assert(n / 0x1_0000_0000_0000 == n / 0x100_0000_0000 / 0x100) by (bit_vector);
    assert(n / 0x100_0000_0000_0000 == n / 0x1_0000_0000_0000 / 0x100) by (bit_vector);
    assert(n / 0x100_0000_0000_0000 < 0x100) by (bit_vector);
    assert(n == 0x100 * (n / 0x100) + n % 0x100);
    assert(n / 0x100 == 0x100 * (n / 0x1_0000) + n / 0x100 % 0x100);
    assert(n / 0x1_0000 == 0x100 * (n / 0x100_0000) + n / 0x1_0000 % 0x100);
    assert(n / 0x100_0000 == 0x100 * (n / 0x1_0000_0000) + n / 0x100_0000 % 0x100);
    assert(n / 0x1_0000_0000 == 0x100 * (n / 0x100_0000_0000) + n / 0x1_0000_0000 % 0x100);
    assert(n / 0x100_0000_0000 == 0x100 * (n / 0x1_0000_0000_0000) + n / 0x100_0000_0000 % 0x100);
    assert(n / 0x1_0000_0000_0000 == 0x100 * (n / 0x100_0000_0000_0000) + n / 0x1_0000_0000_0000
        % 0x100);
}

} // verus!
