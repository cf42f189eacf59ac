//! The plain values that a test case reads and passes on: identifiers, object
//! references, coins and balance changes.
use crate::text::same_text;
use vstd::prelude::*;

verus! {

/// An account address.
#[derive(Clone, Copy, Debug, PartialEq, Eq)]
pub struct SuiAddress {
    pub bytes: [u8; 32],
}

/// The identifier of an object on chain.
#[derive(Clone, Copy, Debug, PartialEq, Eq)]
pub struct ObjectID {
    pub bytes: [u8; 32],
}

/// The digest of a transaction.
#[derive(Clone, Copy, Debug, PartialEq, Eq)]
pub struct TransactionDigest {
    pub bytes: [u8; 32],
}

/// The digest of a checkpoint summary.
#[derive(Clone, Copy, Debug, PartialEq, Eq)]
pub struct CheckpointDigest {
    pub bytes: [u8; 32],
}

/// The digest of an object's contents.
#[derive(Clone, Copy, Debug, PartialEq, Eq)]
pub struct ObjectDigest {
    pub bytes: [u8; 32],
}

/// An object at one version.
#[derive(Clone, Copy, Debug, PartialEq, Eq)]
pub struct ObjectRef {
    pub id: ObjectID,
    pub version: u64,
    pub digest: ObjectDigest,
}

/// Who owns an object.
#[derive(Clone, Copy, Debug, PartialEq, Eq)]
pub enum Owner {
    AddressOwner(SuiAddress),
    ObjectOwner(SuiAddress),
    ConsensusAddressOwner(SuiAddress),
    Shared,
    Immutable,
}

/// A coin that pays for gas.
#[derive(Clone, Copy, Debug, PartialEq, Eq)]
pub struct GasCoin {
    pub id: ObjectID,
    pub value: u64,
}

/// A Move type, as far as it names a coin.
#[derive(Debug, PartialEq, Eq)]
pub enum CoinType {
    Struct { address: SuiAddress, module: String, name: String, type_params: usize },
    Primitive,
}

/// A change of one balance that a transaction made.
#[derive(Debug, PartialEq, Eq)]
pub struct BalanceChange {
    pub owner: Owner,
    /// The address behind `owner`, or the error of asking an owner that has none
    /// for it.
    pub owner_address: Result<SuiAddress, String>,
    pub coin_type: CoinType,
    pub amount: i128,
}

/// How the execution of a transaction ended.
#[derive(Debug, PartialEq, Eq)]
pub enum ExecutionStatus {
    Success,
    Failure { error: String },
}

/// Whether two arrays of bytes are the same.
fn same_bytes(a: &[u8; 32], b: &[u8; 32]) -> (r: bool)
    ensures
        r == (*a == *b),
{
    let mut i: usize = 0;
    while i < 32
        invariant
            i <= 32,
            forall|j: int| 0 <= j < i ==> a@[j] == b@[j],
        decreases 32 - i,
    {
        if a[i] != b[i] {
            return false;
        }
        i += 1;
    }
    assert(*a =~= *b);
    true
}

impl SuiAddress {
    /// Whether this is the address `0x2`, at which the framework is published.
    pub open spec fn is_framework(self) -> bool {
        &&& self.bytes@[31] == 2
        &&& forall|i: int| 0 <= i < 31 ==> #[trigger] self.bytes@[i] == 0
    }

    pub fn same(&self, other: &SuiAddress) -> (r: bool)
        ensures
            r == (*self == *other),
    {
        same_bytes(&self.bytes, &other.bytes)
    }

    fn check_framework(&self) -> (r: bool)
        ensures
            r == self.is_framework(),
    {
        let mut i: usize = 0;
        while i < 31
            invariant
                i <= 31,
                forall|j: int| 0 <= j < i ==> self.bytes@[j] == 0,
            decreases 31 - i,
        {
            if self.bytes[i] != 0 {
                assert(self.bytes@[i as int] != 0);
                return false;
            }
            i += 1;
        }
        self.bytes[31] == 2
    }
}

impl TransactionDigest {
    pub fn same(&self, other: &TransactionDigest) -> (r: bool)
        ensures
            r == (*self == *other),
    {
        same_bytes(&self.bytes, &other.bytes)
    }
}

/// Whether a digest is among others.
pub fn contains_digest(digests: &Vec<TransactionDigest>, digest: &TransactionDigest) -> (r: bool)
    ensures
        r == digests@.contains(*digest),
{
    let mut i: usize = 0;
    while i < digests.len()
        invariant
            i <= digests@.len(),
            forall|j: int| 0 <= j < i ==> digests@[j] != *digest,
        decreases digests@.len() - i,
    {
        if digests[i].same(digest) {
            assert(digests@[i as int] == *digest);
            return true;
        }
        i += 1;
    }
    false
}

impl CheckpointDigest {
    pub fn same(&self, other: &CheckpointDigest) -> (r: bool)
        ensures
            r == (*self == *other),
    {
        same_bytes(&self.bytes, &other.bytes)
    }
}

impl Owner {
    /// Whether the owner is the account at `address`.
    pub fn is_address(&self, address: &SuiAddress) -> (r: bool)
        ensures
            r == (*self == Owner::AddressOwner(*address)),
    {
        match self {
            Owner::AddressOwner(a) => a.same(address),
            _ => false,
        }
    }
}

impl CoinType {
    /// Whether this is the type `0x2::sui::SUI`.
    pub open spec fn is_sui_spec(self) -> bool {
        match self {
            CoinType::Struct { address, module, name, type_params } => {
                &&& address.is_framework()
                &&& module@ == "sui"@
                &&& name@ == "SUI"@
                &&& type_params == 0
            },
            CoinType::Primitive => false,
        }
    }

    /// Whether this is the type `0x2::sui::SUI`.
    pub fn is_sui(&self) -> (r: bool)
        ensures
            r == self.is_sui_spec(),
    {
        match self {
            CoinType::Struct { address, module, name, type_params } => {
                address.check_framework() && same_text(module.as_str(), "sui")
                    && same_text(name.as_str(), "SUI") && *type_params == 0
            },
            CoinType::Primitive => false,
        }
    }
}

impl BalanceChange {
    /// An owner that is an account is reached at that account's address.
    pub open spec fn wf(self) -> bool {
        self.owner matches Owner::AddressOwner(a) ==> self.owner_address == Ok::<
            SuiAddress,
            String,
        >(a)
    }
}

/// A type is SUI if and only if it is the struct `sui::SUI`, without type
/// parameters, at the address whose last byte is 2 and whose others are 0.
pub proof fn sui_is_one_type(coin_type: CoinType)
    ensures
        coin_type is Primitive ==> !coin_type.is_sui_spec(),
        coin_type matches CoinType::Struct { address, module, name, type_params } ==> (
        coin_type.is_sui_spec() <==> {
            &&& module@ == "sui"@
            &&& name@ == "SUI"@
            &&& type_params == 0
            &&& address.bytes@[31] == 2
            &&& forall|i: int| 0 <= i < 31 ==> #[trigger] address.bytes@[i] == 0
        }),
{
}

} // verus!
