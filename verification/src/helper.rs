//! Checks of single objects and balance changes.
use crate::values::{BalanceChange, GasCoin, ObjectID, Owner, SuiAddress};
use crate::violation::Violation;
use vstd::prelude::*;

verus! {

/// What the fullnode has under an object's identifier.
#[derive(Clone, Copy, Debug, PartialEq, Eq)]
pub enum FetchedObject {
    Missing,
    /// With what it holds in SUI, where it is a gas coin.
    Present { owner: Owner, gas_value: Option<u64> },
}

/// Checks that an object exists and belongs to the account that it should.
#[derive(Clone, Copy, Debug, PartialEq, Eq)]
pub struct ObjectChecker {
    pub object: ObjectID,
    pub owner: SuiAddress,
}

impl ObjectChecker {
    /// What is wrong with the object, if anything.
    pub open spec fn violation(self, fetched: FetchedObject) -> Option<Violation> {
        match fetched {
            FetchedObject::Missing => Some(Violation::ObjectMissing { object: self.object }),
            FetchedObject::Present { owner, .. } => if owner == Owner::AddressOwner(self.owner) {
                None
            } else {
                Some(
                    Violation::WrongOwner {
                        object: self.object,
                        expected: self.owner,
                        actual: owner,
                    },
                )
            },
        }
    }

    /// The gas coin that the object is, or what is wrong with it.
    pub open spec fn gas_coin(self, fetched: FetchedObject) -> Result<GasCoin, Violation> {
        match self.violation(fetched) {
            Some(v) => Err(v),
            None => match fetched->gas_value {
                Some(value) => Ok(GasCoin { id: self.object, value }),
                None => Err(Violation::NotGasCoin { object: self.object }),
            },
        }
    }

    /// Checks what the fullnode has under the object's identifier.
    pub fn check(&self, fetched: &FetchedObject) -> (r: Option<Violation>)
        ensures
            r == self.violation(*fetched),
    {
        match fetched {
            FetchedObject::Missing => Some(Violation::ObjectMissing { object: self.object }),
            FetchedObject::Present { owner, .. } => {
                if owner.is_address(&self.owner) {
                    None
                } else {
                    Some(
                        Violation::WrongOwner {
                            object: self.object,
                            expected: self.owner,
                            actual: *owner,
                        },
                    )
                }
            },
        }
    }

    /// The same, of an object that has to be a gas coin.
    pub fn check_into_gas_coin(&self, fetched: &FetchedObject) -> (r: Result<GasCoin, Violation>)
        ensures
            r == self.gas_coin(*fetched),
    {
        match self.check(fetched) {
            Some(v) => Err(v),
            None => match fetched {
                FetchedObject::Present { gas_value: Some(value), .. } => Ok(
                    GasCoin { id: self.object, value: *value },
                ),
                _ => Err(Violation::NotGasCoin { object: self.object }),
            },
        }
    }
}

/// Checks that a balance change is one of an account's SUI.
#[derive(Clone, Copy, Debug, PartialEq, Eq)]
pub struct BalanceChangeChecker {
    pub owner: SuiAddress,
}

impl BalanceChangeChecker {
    /// What is wrong with the change, if anything.
    pub open spec fn violation(self, change: BalanceChange) -> Option<Violation> {
        if change.owner != Owner::AddressOwner(self.owner) {
            Some(Violation::WrongBalanceOwner { expected: self.owner, actual: change.owner })
        } else if !change.coin_type.is_sui_spec() {
            Some(Violation::WrongCoinType)
        } else {
            None
        }
    }

    pub fn check(&self, change: &BalanceChange) -> (r: Option<Violation>)
        ensures
            r == self.violation(*change),
    {
        if !change.owner.is_address(&self.owner) {
            return Some(
                Violation::WrongBalanceOwner { expected: self.owner, actual: change.owner },
            );
        }
        if !change.coin_type.is_sui() {
            return Some(Violation::WrongCoinType);
        }
        None
    }
}

/// Nothing is wrong with an object if and only if it is there and belongs to the
/// account; otherwise it is said to be missing, or whose it is instead.
pub proof fn objects_are_right_exactly_when(checker: ObjectChecker, fetched: FetchedObject)
    ensures
        checker.violation(fetched) is None <==> (fetched matches FetchedObject::Present {
            owner: Owner::AddressOwner(a),
            ..
        } && a == checker.owner),
        fetched is Missing ==> checker.violation(fetched) == Some(
            Violation::ObjectMissing { object: checker.object },
        ),
        fetched matches FetchedObject::Present { owner, .. } && owner != Owner::AddressOwner(
            checker.owner,
        ) ==> checker.violation(fetched) == Some(
            Violation::WrongOwner {
                object: checker.object,
                expected: checker.owner,
                actual: fetched->owner,
            },
        ),
{
}

/// A gas coin is made of an object if and only if it is there, belongs to the
/// account and holds SUI; then it has the object's identifier and holds as much.
pub proof fn gas_coins_are_right_exactly_when(checker: ObjectChecker, fetched: FetchedObject)
    ensures
        checker.gas_coin(fetched) is Ok <==> (fetched matches FetchedObject::Present {
            owner: Owner::AddressOwner(a),
            gas_value: Some(_),
        } && a == checker.owner),
        checker.gas_coin(fetched) matches Ok(coin) ==> coin.id == checker.object && Some(
            coin.value,
        ) == fetched->gas_value,
        fetched is Missing ==> checker.gas_coin(fetched) == Err::<GasCoin, Violation>(
            Violation::ObjectMissing { object: checker.object },
        ),
        fetched matches FetchedObject::Present { owner, .. } && owner != Owner::AddressOwner(
            checker.owner,
        ) ==> checker.gas_coin(fetched) == Err::<GasCoin, Violation>(
            Violation::WrongOwner {
                object: checker.object,
                expected: checker.owner,
                actual: fetched->owner,
            },
        ),
        fetched matches FetchedObject::Present { owner, gas_value: None } && owner
            == Owner::AddressOwner(checker.owner) ==> checker.gas_coin(fetched) == Err::<
            GasCoin,
            Violation,
        >(Violation::NotGasCoin { object: checker.object }),
{
}

/// Nothing is wrong with a balance change if and only if it is one of the
/// account's and in SUI; of a change that is neither, the owner is named.
pub proof fn balance_changes_are_right_exactly_when(
    checker: BalanceChangeChecker,
    change: BalanceChange,
)
    ensures
        checker.violation(change) is None <==> change.owner == Owner::AddressOwner(checker.owner)
            && change.coin_type.is_sui_spec(),
        change.owner != Owner::AddressOwner(checker.owner) ==> checker.violation(change) == Some(
            Violation::WrongBalanceOwner { expected: checker.owner, actual: change.owner },
        ),
        change.owner == Owner::AddressOwner(checker.owner) && !change.coin_type.is_sui_spec()
            ==> checker.violation(change) == Some(Violation::WrongCoinType),
{
}

} // verus!
