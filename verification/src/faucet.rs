//! Getting coins from the faucet: asking for them, waiting for the fullnode to
//! see them, and checking that they are there.
use crate::helper::{gas_coins_are_right_exactly_when, FetchedObject, ObjectChecker};
use crate::values::{GasCoin, ObjectID, Owner, SuiAddress, TransactionDigest};
use crate::violation::Violation;
use vstd::prelude::*;

verus! {

/// A coin that the faucet says it sent.
#[derive(Clone, Copy, Debug, PartialEq, Eq)]
pub struct CoinInfo {
    pub id: ObjectID,
    pub transfer_tx_digest: TransactionDigest,
}

/// Whether the faucet granted a request.
#[derive(Debug, PartialEq, Eq)]
pub enum RequestStatus {
    Success,
    Failure(String),
}

/// What the faucet answers to a request for coins.
#[derive(Debug, PartialEq, Eq)]
pub struct FaucetResponse {
    pub status: RequestStatus,
    pub coins_sent: Option<Vec<CoinInfo>>,
}

impl FaucetResponse {
    /// The coins that were sent: none where the faucet names none.
    pub open spec fn coins(self) -> Seq<CoinInfo> {
        match self.coins_sent {
            Some(coins) => coins@,
            None => Seq::empty(),
        }
    }
}

/// The transactions that sent the coins, in order.
pub open spec fn transfers(coins: Seq<CoinInfo>) -> Seq<TransactionDigest> {
    coins.map_values(|coin: CoinInfo| coin.transfer_tx_digest)
}

/// The objects that the coins are, in order.
pub open spec fn objects(coins: Seq<CoinInfo>) -> Seq<ObjectID> {
    coins.map_values(|coin: CoinInfo| coin.id)
}

/// The gas coins that the sent coins are, in order, or what is wrong with the
/// first that is not one of the owner's.
pub open spec fn gas_coins(
    coins: Seq<CoinInfo>,
    fetched: Seq<FetchedObject>,
    owner: SuiAddress,
) -> Result<Seq<GasCoin>, Violation>
    decreases coins.len(),
{
    if coins.len() == 0 {
        Ok(Seq::empty())
    } else {
        match gas_coins(coins.drop_last(), fetched, owner) {
            Err(v) => Err(v),
            Ok(before) => {
                let checker = ObjectChecker { object: coins.last().id, owner };
                match checker.gas_coin(fetched[coins.len() - 1]) {
                    Err(v) => Err(v),
                    Ok(coin) => Ok(before.push(coin)),
                }
            },
        }
    }
}

proof fn first_wrong_coin_decides(
    coins: Seq<CoinInfo>,
    fetched: Seq<FetchedObject>,
    owner: SuiAddress,
    n: int,
)
    requires
        0 <= n <= coins.len(),
        gas_coins(coins.take(n), fetched, owner) is Err,
    ensures
        gas_coins(coins, fetched, owner) == gas_coins(coins.take(n), fetched, owner),
    decreases coins.len(),
{
    if n < coins.len() {
        assert(coins.drop_last().take(n) =~= coins.take(n));
        first_wrong_coin_decides(coins.drop_last(), fetched, owner, n);
    } else {
        assert(coins.take(n) =~= coins);
    }
}

/// Checks what the fullnode has under the coins' identifiers.
pub fn check_owner_and_into_gas_coin(
    coins: &Vec<CoinInfo>,
    fetched: &Vec<FetchedObject>,
    owner: SuiAddress,
) -> (r: Result<Vec<GasCoin>, Violation>)
    requires
        coins@.len() == fetched@.len(),
    ensures
        match gas_coins(coins@, fetched@, owner) {
            Ok(found) => r matches Ok(v) && v@ == found,
            Err(v) => r == Err::<Vec<GasCoin>, Violation>(v),
        },
{
    let mut r: Vec<GasCoin> = Vec::new();
    let mut i: usize = 0;
    while i < coins.len()
        invariant
            i <= coins@.len(),
            coins@.len() == fetched@.len(),
            gas_coins(coins@.take(i as int), fetched@, owner) == Ok::<Seq<GasCoin>, Violation>(r@),
        decreases coins@.len() - i,
    {
        let checker: ObjectChecker = ObjectChecker { object: coins[i].id, owner };
        assert(coins@.take(i + 1).drop_last() =~= coins@.take(i as int));
        match checker.check_into_gas_coin(&fetched[i]) {
            Ok(coin) => {
                r.push(coin);
            },
            Err(v) => {
                proof {
                    first_wrong_coin_decides(coins@, fetched@, owner, i + 1);
                }
                return Err(v);
            },
        }
        i += 1;
    }
    assert(coins@.take(i as int) =~= coins@);
    Ok(r)
}

/// How far a request for coins has come.
#[derive(Debug, PartialEq, Eq)]
pub enum FaucetStage {
    /// The faucet has been asked.
    Asked,
    /// The coins were sent, and the fullnode is to observe that.
    Sent { sent: Vec<CoinInfo> },
    /// The coins are being fetched from the fullnode.
    Fetching { expected: Vec<CoinInfo> },
}

/// A request for coins under way.
#[derive(Debug, PartialEq, Eq)]
pub struct FaucetRun {
    pub address: SuiAddress,
    pub minimum_coins: usize,
    pub stage: FaucetStage,
}

/// What comes back while coins are being got.
#[derive(Debug, PartialEq, Eq)]
pub enum FaucetEvent {
    /// The faucet has answered.
    Answered(FaucetResponse),
    /// The fullnode has observed the transactions.
    Synced,
    /// The objects have been fetched, in the order in which they were named.
    Fetched(Vec<FetchedObject>),
}

/// What to do next for coins.
#[derive(Debug, PartialEq, Eq)]
pub enum FaucetNext {
    /// Asks the faucet for coins for the address.
    RequestSuiCoins { run: FaucetRun, address: SuiAddress },
    /// Lets the fullnode observe transactions.
    LetFullnodeSync { run: FaucetRun, digests: Vec<TransactionDigest>, timeout_sec: u64 },
    /// Fetches objects from the fullnode.
    Fetch { run: FaucetRun, objects: Vec<ObjectID> },
    /// Ends: these are the coins.
    Coins(Vec<GasCoin>),
    /// Ends, and the suite with it.
    Panicked(Violation),
}

impl FaucetRun {
    /// Begins to get coins for `address`, at least one unless more are asked for.
    pub fn start(address: SuiAddress, minimum_coins: Option<usize>) -> (r: FaucetNext)
        ensures
            r == (FaucetNext::RequestSuiCoins {
                run: FaucetRun {
                    address,
                    minimum_coins: match minimum_coins {
                        Some(n) => n,
                        None => 1,
                    },
                    stage: FaucetStage::Asked,
                },
                address,
            }),
    {
        let minimum_coins: usize = match minimum_coins {
            Some(n) => n,
            None => 1,
        };
        FaucetNext::RequestSuiCoins {
            run: FaucetRun { address, minimum_coins, stage: FaucetStage::Asked },
            address,
        }
    }

    /// Whether the two are of one request, for the same address and number.
    pub open spec fn same_request(self, other: FaucetRun) -> bool {
        &&& self.address == other.address
        &&& self.minimum_coins == other.minimum_coins
    }

    /// Whether `next` is what follows on `event`.
    pub open spec fn leads_to(self, event: FaucetEvent, next: FaucetNext) -> bool {
        match (self.stage, event) {
            (FaucetStage::Asked, FaucetEvent::Answered(response)) => match response.status {
                RequestStatus::Failure(error) => next == FaucetNext::Panicked(
                    Violation::FaucetFailure { error },
                ),
                RequestStatus::Success => {
                    &&& next matches FaucetNext::LetFullnodeSync { run, digests, timeout_sec }
                    &&& self.same_request(run)
                    &&& run.stage matches FaucetStage::Sent { sent }
                    &&& sent@ == response.coins()
                    &&& digests@ == transfers(response.coins())
                    &&& timeout_sec == 5
                },
            },
            (FaucetStage::Sent { sent }, FaucetEvent::Synced) => {
                &&& next matches FaucetNext::Fetch { run, objects: wanted }
                &&& self.same_request(run)
                &&& run.stage == (FaucetStage::Fetching { expected: sent })
                &&& wanted@ == objects(sent@)
            },
            (FaucetStage::Fetching { expected }, FaucetEvent::Fetched(fetched)) => {
                if fetched@.len() != expected@.len() {
                    next == FaucetNext::Panicked(Violation::UnexpectedReply)
                } else {
                    match gas_coins(expected@, fetched@, self.address) {
                        Err(v) => next == FaucetNext::Panicked(v),
                        Ok(coins) => if coins.len() < self.minimum_coins {
                            next == FaucetNext::Panicked(
                                Violation::TooFewCoins {
                                    minimum: self.minimum_coins,
                                    address: self.address,
                                    got: coins.len() as usize,
                                },
                            )
                        } else {
                            next matches FaucetNext::Coins(v) && v@ == coins
                        },
                    }
                }
            },
            _ => next == FaucetNext::Panicked(Violation::UnexpectedReply),
        }
    }

    /// Takes an event.
    pub fn step(self, event: FaucetEvent) -> (r: FaucetNext)
        ensures
            self.leads_to(event, r),
    {
        let address: SuiAddress = self.address;
        let minimum_coins: usize = self.minimum_coins;
        match (self.stage, event) {
            (FaucetStage::Asked, FaucetEvent::Answered(response)) => {
                match response.status {
                    RequestStatus::Failure(error) => {
                        return FaucetNext::Panicked(Violation::FaucetFailure { error });
                    },
                    RequestStatus::Success => {},
                }
                let sent: Vec<CoinInfo> = match response.coins_sent {
                    Some(coins) => coins,
                    None => Vec::new(),
                };
                let digests: Vec<TransactionDigest> = collect_transfers(&sent);
                let stage: FaucetStage = FaucetStage::Sent { sent };
                FaucetNext::LetFullnodeSync {
                    run: FaucetRun { address, minimum_coins, stage },
                    digests,
                    timeout_sec: 5,
                }
            },
            (FaucetStage::Sent { sent }, FaucetEvent::Synced) => {
                let wanted: Vec<ObjectID> = collect_objects(&sent);
                let stage: FaucetStage = FaucetStage::Fetching { expected: sent };
                FaucetNext::Fetch {
                    run: FaucetRun { address, minimum_coins, stage },
                    objects: wanted,
                }
            },
            (FaucetStage::Fetching { expected }, FaucetEvent::Fetched(fetched)) => {
                if fetched.len() != expected.len() {
                    return FaucetNext::Panicked(Violation::UnexpectedReply);
                }
                match check_owner_and_into_gas_coin(&expected, &fetched, address) {
                    Err(v) => FaucetNext::Panicked(v),
                    Ok(coins) => {
                        if coins.len() < minimum_coins {
                            FaucetNext::Panicked(
                                Violation::TooFewCoins {
                                    minimum: minimum_coins,
                                    address,
                                    got: coins.len(),
                                },
                            )
                        } else {
                            FaucetNext::Coins(coins)
                        }
                    },
                }
            },
            _ => FaucetNext::Panicked(Violation::UnexpectedReply),
        }
    }
}

fn collect_transfers(coins: &Vec<CoinInfo>) -> (r: Vec<TransactionDigest>)
    ensures
        r@ == transfers(coins@),
{
    let mut r: Vec<TransactionDigest> = Vec::new();
    let mut i: usize = 0;
    while i < coins.len()
        invariant
            i <= coins@.len(),
            r@ == transfers(coins@.take(i as int)),
        decreases coins@.len() - i,
    {
        r.push(coins[i].transfer_tx_digest);
        i += 1;
        assert(r@ =~= transfers(coins@.take(i as int)));
    }
    assert(coins@.take(i as int) =~= coins@);
    r
}

fn collect_objects(coins: &Vec<CoinInfo>) -> (r: Vec<ObjectID>)
    ensures
        r@ == objects(coins@),
{
    let mut r: Vec<ObjectID> = Vec::new();
    let mut i: usize = 0;
    while i < coins.len()
        invariant
            i <= coins@.len(),
            r@ == objects(coins@.take(i as int)),
        decreases coins@.len() - i,
    {
        r.push(coins[i].id);
        i += 1;
        assert(r@ =~= objects(coins@.take(i as int)));
    }
    assert(coins@.take(i as int) =~= coins@);
    r
}

/// Coins come out only if every coin sent is there and belongs to the address;
/// then they are as many as were sent, in the same order and under the same
/// identifiers.
pub proof fn gas_coins_are_owned(
    coins: Seq<CoinInfo>,
    fetched: Seq<FetchedObject>,
    owner: SuiAddress,
)
    requires
        coins.len() <= fetched.len(),
    ensures
        gas_coins(coins, fetched, owner) is Ok <==> forall|i: int|
            0 <= i < coins.len() ==> (ObjectChecker {
                object: #[trigger] coins[i].id,
                owner,
            }).gas_coin(fetched[i]) is Ok,
        gas_coins(coins, fetched, owner) matches Ok(found) ==> found.len() == coins.len()
            && forall|i: int|
            0 <= i < coins.len() ==> (ObjectChecker {
                object: #[trigger] coins[i].id,
                owner,
            }).gas_coin(fetched[i]) == Ok::<GasCoin, Violation>(found[i]) && found[i].id
                == coins[i].id,
    decreases coins.len(),
{
    if coins.len() > 0 {
        let n = coins.len() - 1;
        let before = coins.drop_last();
        gas_coins_are_owned(before, fetched, owner);
        assert forall|i: int| 0 <= i < n implies before[i].id == #[trigger] coins[i].id by {}
        if gas_coins(coins, fetched, owner) is Err {
            if gas_coins(before, fetched, owner) is Err {
                let i = choose|i: int|
                    0 <= i < before.len() && !((ObjectChecker {
                        object: #[trigger] before[i].id,
                        owner,
                    }).gas_coin(fetched[i]) is Ok);
                assert(coins[i].id == before[i].id);
            } else {
                assert(coins[n].id == coins.last().id);
            }
        }
    }
}

/// However the faucet and the fullnode behave: where coins come out, they are at
/// least as many as were asked for, and each is a gas coin that the fullnode
/// has under the identifier that the faucet gave, and that belongs to the
/// address.
pub proof fn enough_coins_or_none(run: FaucetRun, event: FaucetEvent, next: FaucetNext)
    requires
        run.leads_to(event, next),
        next is Coins,
    ensures
        next->Coins_0@.len() >= run.minimum_coins,
        run.stage matches FaucetStage::Fetching { expected } && event matches FaucetEvent::Fetched(
            fetched,
        ) && next->Coins_0@.len() == expected@.len() == fetched@.len() && forall|i: int|
            0 <= i < expected@.len() ==> (ObjectChecker {
                object: #[trigger] expected@[i].id,
                owner: run.address,
            }).gas_coin(fetched@[i]) == Ok::<GasCoin, Violation>(next->Coins_0@[i])
                && next->Coins_0@[i].id == expected@[i].id,
{
    gas_coins_are_owned(
        run.stage->expected@,
        event->Fetched_0@,
        run.address,
    );
}

/// The coins that count as sent are those that the faucet names, and none where it
/// names none; their transactions and objects are listed in the same order.
pub proof fn coins_keep_their_order(response: FaucetResponse)
    ensures
        response.coins_sent is None ==> response.coins().len() == 0,
        response.coins_sent matches Some(sent) ==> response.coins() == sent@,
        transfers(response.coins()).len() == response.coins().len(),
        objects(response.coins()).len() == response.coins().len(),
        forall|i: int|
            0 <= i < response.coins().len() ==> #[trigger] transfers(response.coins())[i]
                == response.coins()[i].transfer_tx_digest,
        forall|i: int|
            0 <= i < response.coins().len() ==> #[trigger] objects(response.coins())[i]
                == response.coins()[i].id,
{
}

/// What is wrong with fetched coins is what is wrong with the first of them that
/// is not one of the owner's gas coins.
pub proof fn first_wrong_coin_is_told(
    coins: Seq<CoinInfo>,
    fetched: Seq<FetchedObject>,
    owner: SuiAddress,
)
    requires
        coins.len() <= fetched.len(),
    ensures
        gas_coins(coins, fetched, owner) matches Err(v) ==> exists|i: int|
            0 <= i < coins.len() && (ObjectChecker {
                object: #[trigger] coins[i].id,
                owner,
            }).gas_coin(fetched[i]) == Err::<GasCoin, Violation>(v) && forall|j: int|
                0 <= j < i ==> (ObjectChecker { object: #[trigger] coins[j].id, owner }).gas_coin(
                    fetched[j],
                ) is Ok,
    decreases coins.len(),
{
    if let Err(v) = gas_coins(coins, fetched, owner) {
        let before = coins.drop_last();
        let n = coins.len() - 1;
        if gas_coins(before, fetched, owner) is Err {
            first_wrong_coin_is_told(before, fetched, owner);
            let i = choose|i: int|
                0 <= i < before.len() && (ObjectChecker {
                    object: #[trigger] before[i].id,
                    owner,
                }).gas_coin(fetched[i]) == Err::<GasCoin, Violation>(v) && forall|j: int|
                    0 <= j < i ==> (ObjectChecker {
                        object: #[trigger] before[j].id,
                        owner,
                    }).gas_coin(fetched[j]) is Ok;
            assert(coins[i].id == before[i].id);
            assert forall|j: int| 0 <= j < i implies (ObjectChecker {
                object: #[trigger] coins[j].id,
                owner,
            }).gas_coin(fetched[j]) is Ok by {
                assert(before[j].id == coins[j].id);
            }
        } else {
            gas_coins_are_owned(before, fetched, owner);
            assert(coins[n].id == coins.last().id);
            assert forall|j: int| 0 <= j < n implies (ObjectChecker {
                object: #[trigger] coins[j].id,
                owner,
            }).gas_coin(fetched[j]) is Ok by {
                assert(before[j].id == coins[j].id);
            }
        }
    }
}

/// A request for coins goes its way, whatever comes back: a refusal of the faucet
/// ends the suite; coins that were sent are waited for, for five seconds, and
/// fetched, all of them and in order; coins come out if each is a gas coin of
/// the address and they are enough; and anything out of turn is refused.
pub proof fn coins_go_their_way(run: FaucetRun, event: FaucetEvent, next: FaucetNext)
    requires
        run.leads_to(event, next),
    ensures
        run.stage is Asked && event is Answered ==> ({
            let response = event->Answered_0;
            let sent = response.coins_sent;
            match response.status {
                RequestStatus::Failure(error) => next == FaucetNext::Panicked(
                    Violation::FaucetFailure { error },
                ),
                RequestStatus::Success => next matches FaucetNext::LetFullnodeSync {
                    run: waiting,
                    digests,
                    timeout_sec,
                } && timeout_sec == 5 && waiting.address == run.address && waiting.minimum_coins
                    == run.minimum_coins && waiting.stage is Sent && (sent is Some
                    ==> waiting.stage->sent@ == sent->0@) && (sent is None
                    ==> waiting.stage->sent@.len() == 0) && digests@.len()
                    == waiting.stage->sent@.len() && forall|i: int|
                    0 <= i < digests@.len() ==> #[trigger] digests@[i]
                        == waiting.stage->sent@[i].transfer_tx_digest,
            }
        }),
        run.stage is Sent && event is Synced ==> (next matches FaucetNext::Fetch {
            run: fetching,
            objects: wanted,
        } && fetching.address == run.address && fetching.minimum_coins == run.minimum_coins
            && fetching.stage == (FaucetStage::Fetching { expected: run.stage->sent })
            && wanted@.len() == run.stage->sent@.len() && forall|i: int|
            0 <= i < wanted@.len() ==> #[trigger] wanted@[i] == run.stage->sent@[i].id),
        run.stage is Fetching && event is Fetched ==> ({
            let expected = run.stage->expected@;
            let fetched = event->Fetched_0@;
            let all_right = forall|i: int|
                0 <= i < expected.len() ==> ((#[trigger] fetched[i]) matches
                    FetchedObject::Present { owner: Owner::AddressOwner(a), gas_value: Some(_) }
                    && a == run.address);
            if fetched.len() != expected.len() {
                next == FaucetNext::Panicked(Violation::UnexpectedReply)
            } else if all_right && expected.len() >= run.minimum_coins {
                next matches FaucetNext::Coins(coins) && coins@.len() == expected.len()
                    && forall|i: int|
                    0 <= i < coins@.len() ==> (#[trigger] coins@[i]).id == expected[i].id && Some(
                        coins@[i].value,
                    ) == fetched[i]->gas_value
            } else if all_right {
                next == FaucetNext::Panicked(
                    Violation::TooFewCoins {
                        minimum: run.minimum_coins,
                        address: run.address,
                        got: run.stage->expected.len(),
                    },
                )
            } else {
                next matches FaucetNext::Panicked(v) && exists|i: int|
                    0 <= i < expected.len() && (ObjectChecker {
                        object: #[trigger] expected[i].id,
                        owner: run.address,
                    }).gas_coin(fetched[i]) == Err::<GasCoin, Violation>(v) && forall|j: int|
                        0 <= j < i ==> (ObjectChecker {
                            object: #[trigger] expected[j].id,
                            owner: run.address,
                        }).gas_coin(fetched[j]) is Ok
            }
        }),
        !(run.stage is Asked && event is Answered) && !(run.stage is Sent && event is Synced) && !(
        run.stage is Fetching && event is Fetched) ==> next == FaucetNext::Panicked(
            Violation::UnexpectedReply,
        ),
{
    if run.stage is Fetching && event is Fetched {
        let expected = run.stage->expected@;
        let fetched = event->Fetched_0@;
        if fetched.len() == expected.len() {
            gas_coins_are_owned(expected, fetched, run.address);
            first_wrong_coin_is_told(expected, fetched, run.address);
            assert forall|i: int| 0 <= i < expected.len() implies ((#[trigger] fetched[i]) matches
                FetchedObject::Present { owner: Owner::AddressOwner(a), gas_value: Some(_) } && a
                == run.address) <==> (ObjectChecker {
                object: expected[i].id,
                owner: run.address,
            }).gas_coin(fetched[i]) is Ok by {
                gas_coins_are_right_exactly_when(
                    ObjectChecker { object: expected[i].id, owner: run.address },
                    fetched[i],
                );
            }
            let all_right = forall|i: int|
                0 <= i < expected.len() ==> ((#[trigger] fetched[i]) matches
                    FetchedObject::Present { owner: Owner::AddressOwner(a), gas_value: Some(_) }
                    && a == run.address);
            if all_right {
                assert forall|i: int| 0 <= i < expected.len() implies (ObjectChecker {
                    object: #[trigger] expected[i].id,
                    owner: run.address,
                }).gas_coin(fetched[i]) is Ok by {
                    assert(fetched[i] is Present);
                }
            } else {
                let i = choose|i: int|
                    0 <= i < expected.len() && !((#[trigger] fetched[i]) matches
                        FetchedObject::Present {
                        owner: Owner::AddressOwner(a),
                        gas_value: Some(_),
                    } && a == run.address);
                assert(!((ObjectChecker {
                    object: expected[i].id,
                    owner: run.address,
                }).gas_coin(fetched[i]) is Ok));
            }
        }
    }
}

} // verus!
