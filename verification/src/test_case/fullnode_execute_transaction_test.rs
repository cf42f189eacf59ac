use crate::case::{
    asks, every_case_ends, failed, failed_plainly, fails, insist, panics, played, refuted, stands,
    unexpected, CaseRun, Next, TestCaseImpl,
};
use crate::context::TestContext;
use crate::protocol::{
    Digests, ExecuteTransactionRequestType, Reply, Request, ResponseOptions, SignedTransaction,
    TransactionBlockResponse,
};
use crate::values::{contains_digest, ExecutionStatus, SuiAddress, TransactionDigest};
use crate::violation::{Shown, Violation};
use vstd::string::StrSliceExecFns;
use vstd::prelude::*;

verus! {

/// Executes transactions through a fullnode, in both ways of waiting for them,
/// and looks them up.
#[derive(Clone, Copy, Debug, PartialEq, Eq)]
pub struct FullNodeExecuteTransactionTest;

/// How far the case has come: what it is waiting for.
#[derive(Debug, PartialEq, Eq)]
pub enum ExecuteStage {
    Checkpoint,
    ProtocolConfig,
    ChainIdentifier,
    Coins,
    Transactions,
    EffectsCert { digest: TransactionDigest, next: SignedTransaction },
    EffectsCertSync { digest: TransactionDigest, next: SignedTransaction },
    VerifyFirst { digest: TransactionDigest, next: SignedTransaction },
    LocalExecution { digest: TransactionDigest },
    VerifySecond { digest: TransactionDigest },
    Query { digest: TransactionDigest },
    AllOptions,
}

/// The case under way.
#[derive(Debug, PartialEq, Eq)]
pub struct ExecuteRun {
    pub sender: SuiAddress,
    pub stage: ExecuteStage,
}

/// What is wrong with the response to a submitted transaction, if anything. The
/// fullnode says whether it has executed the transaction itself.
pub open spec fn execution_violation(
    digest: TransactionDigest,
    local: bool,
    response: TransactionBlockResponse,
) -> Option<Violation> {
    match response.confirmed_local_execution {
        None => Some(Violation::Assertion("called `Option::unwrap()` on a `None` value")),
        Some(confirmed) => if confirmed != local {
            Some(
                Violation::Assertion(
                    if local {
                        "assertion failed: response.confirmed_local_execution.unwrap()"
                    } else {
                        "assertion failed: !response.confirmed_local_execution.unwrap()"
                    },
                ),
            )
        } else if digest != response.digest {
            Some(
                Violation::Unequal {
                    message: "",
                    left: Shown::Transaction(digest),
                    right: Shown::Transaction(response.digest),
                },
            )
        } else {
            match response.effects {
                None => Some(Violation::Assertion("called `Option::unwrap()` on a `None` value")),
                Some(ExecutionStatus::Failure { error }) => Some(
                    Violation::TransferFailed { digest, error },
                ),
                Some(ExecutionStatus::Success) => None,
            }
        },
    }
}

/// Checks the response to a submitted transaction.
pub fn check_execution(
    digest: TransactionDigest,
    local: bool,
    response: TransactionBlockResponse,
) -> (r: Option<Violation>)
    ensures
        r == execution_violation(digest, local, response),
{
    match response.confirmed_local_execution {
        None => {
            return Some(Violation::Assertion("called `Option::unwrap()` on a `None` value"));
        },
        Some(confirmed) => {
            if confirmed != local {
                let message: &'static str = if local {
                    "assertion failed: response.confirmed_local_execution.unwrap()"
                } else {
                    "assertion failed: !response.confirmed_local_execution.unwrap()"
                };
                return Some(Violation::Assertion(message));
            }
        },
    }
    if !digest.same(&response.digest) {
        return Some(
            Violation::Unequal {
                message: "",
                left: Shown::Transaction(digest),
                right: Shown::Transaction(response.digest),
            },
        );
    }
    match response.effects {
        None => Some(Violation::Assertion("called `Option::unwrap()` on a `None` value")),
        Some(ExecutionStatus::Failure { error }) => Some(
            Violation::TransferFailed { digest, error },
        ),
        Some(ExecutionStatus::Success) => None,
    }
}

/// Every part that a response can hold.
#[verifier::allow_in_spec]
pub fn all_options() -> ResponseOptions
    returns
        (ResponseOptions {
            effects: true,
            events: true,
            object_changes: true,
            balance_changes: true,
            input: true,
            raw_input: true,
        }),
{
    ResponseOptions::new().with_effects().with_events().with_object_changes().with_balance_changes()
        .with_input().with_raw_input()
}

impl FullNodeExecuteTransactionTest {
    /// What is wrong where an executed transaction is looked up, if anything.
    pub open spec fn not_verified(digest: TransactionDigest, reply: Reply) -> Option<Violation> {
        match reply {
            Reply::Executed(_) => None,
            Reply::RpcError(failure) => Some(Violation::TransactionNotFound { digest, failure }),
            _ => Some(Violation::UnexpectedReply),
        }
    }

    /// Checks that the fullnode knows an executed transaction.
    pub fn verify_transaction(digest: TransactionDigest, reply: Reply) -> (r: Option<Violation>)
        ensures
            r == Self::not_verified(digest, reply),
    {
        match reply {
            Reply::Executed(_) => None,
            Reply::RpcError(failure) => Some(Violation::TransactionNotFound { digest, failure }),
            _ => Some(Violation::UnexpectedReply),
        }
    }
}

impl ExecuteRun {
    /// Goes on to `stage`.
    #[verifier::allow_in_spec]
    pub fn ask(sender: SuiAddress, stage: ExecuteStage, request: Request) -> Next<ExecuteRun>
        returns
            Next::Ask(ExecuteRun { sender, stage }, request),
    {
        Next::Ask(ExecuteRun { sender, stage }, request)
    }
}

impl CaseRun for ExecuteRun {
    open spec fn next(self, reply: Reply) -> Next<ExecuteRun> {
        let me = self.sender;
        match self.stage {
            ExecuteStage::Checkpoint => match reply {
                Reply::RpcError(e) => failed("get_latest_checkpoint", e),
                Reply::Checkpoint(checkpoint) => insist(
                    checkpoint.sequence_number > 0,
                    "Latest checkpoint sequence number should be > 0",
                    Self::ask(me, ExecuteStage::ProtocolConfig, Request::GrpcGetProtocolConfig),
                ),
                _ => unexpected(),
            },
            ExecuteStage::ProtocolConfig => match reply {
                Reply::RpcError(e) => failed("get_protocol_config", e),
                Reply::OptionalNumber(None) => refuted("Protocol version should be present"),
                Reply::OptionalNumber(Some(version)) => insist(
                    version > 0,
                    "Protocol version should be > 0",
                    Self::ask(me, ExecuteStage::ChainIdentifier, Request::GrpcGetChainIdentifier),
                ),
                _ => unexpected(),
            },
            ExecuteStage::ChainIdentifier => match reply {
                Reply::RpcError(e) => failed("get_chain_identifier", e),
                Reply::Text(chain_id) => insist(
                    chain_id@.len() > 0,
                    "Chain identifier should not be empty",
                    Self::ask(
                        me,
                        ExecuteStage::Coins,
                        Request::GetSuiFromFaucet { minimum_coins: 1 },
                    ),
                ),
                _ => unexpected(),
            },
            ExecuteStage::Coins => match reply {
                Reply::Coins(_) => Self::ask(
                    me,
                    ExecuteStage::Transactions,
                    Request::MakeTransactions { max_txn_num: 4 },
                ),
                _ => unexpected(),
            },
            ExecuteStage::Transactions => match reply {
                Reply::Transactions(txns) => if txns.len() < 4 {
                    Next::Panicked(Violation::TooFewGasObjects { needed: 4, got: txns.len() })
                } else {
                    Self::ask(
                        me,
                        ExecuteStage::EffectsCert { digest: txns@[0].digest, next: txns@.last() },
                        Request::ExecuteTransactionBlock {
                            transaction: txns@[0].handle,
                            options: ResponseOptions::new().with_effects(),
                            request_type: ExecuteTransactionRequestType::WaitForEffectsCert,
                        },
                    )
                },
                _ => unexpected(),
            },
            ExecuteStage::EffectsCert { digest, next } => match reply {
                Reply::RpcError(e) => failed_plainly(e),
                Reply::Response(response) => match execution_violation(digest, false, response) {
                    Some(v) => Next::Panicked(v),
                    None => Self::ask(
                        me,
                        ExecuteStage::EffectsCertSync { digest, next },
                        Request::LetFullnodeSync { digests: Digests::One(digest), timeout_sec: 5 },
                    ),
                },
                _ => unexpected(),
            },
            ExecuteStage::EffectsCertSync { digest, next } => match reply {
                Reply::Synced => Self::ask(
                    me,
                    ExecuteStage::VerifyFirst { digest, next },
                    Request::GrpcGetTransaction { digest },
                ),
                _ => unexpected(),
            },
            ExecuteStage::VerifyFirst { digest, next } => {
                let wrong = FullNodeExecuteTransactionTest::not_verified(digest, reply);
                match wrong {
                    Some(v) => Next::Panicked(v),
                    None => Self::ask(
                        me,
                        ExecuteStage::LocalExecution { digest: next.digest },
                        Request::ExecuteTransactionBlock {
                            transaction: next.handle,
                            options: ResponseOptions::new().with_effects(),
                            request_type: ExecuteTransactionRequestType::WaitForLocalExecution,
                        },
                    ),
                }
            },
            ExecuteStage::LocalExecution { digest } => match reply {
                Reply::RpcError(e) => failed_plainly(e),
                Reply::Response(response) => match execution_violation(digest, true, response) {
                    Some(v) => Next::Panicked(v),
                    None => Self::ask(
                        me,
                        ExecuteStage::VerifySecond { digest },
                        Request::GrpcGetTransaction { digest },
                    ),
                },
                _ => unexpected(),
            },
            ExecuteStage::VerifySecond { digest } => {
                let wrong = FullNodeExecuteTransactionTest::not_verified(digest, reply);
                match wrong {
                    Some(v) => Next::Panicked(v),
                    None => Self::ask(
                        me,
                        ExecuteStage::Query { digest },
                        Request::QueryTransactionBlocks { from: me, limit: 10, descending: true },
                    ),
                }
            },
            ExecuteStage::Query { digest } => match reply {
                Reply::RpcError(e) => failed("query_transaction_blocks", e),
                Reply::TransactionDigests(found) => insist(
                    found.len() > 0,
                    "Should find at least one transaction from the sender",
                    insist(
                        found@.contains(digest),
                        "Query results should include the just-executed transaction",
                        Self::ask(
                            me,
                            ExecuteStage::AllOptions,
                            Request::GetTransaction { digest, options: all_options() },
                        ),
                    ),
                ),
                _ => unexpected(),
            },
            ExecuteStage::AllOptions => match reply {
                Reply::RpcError(e) => failed("get_transaction_with_options with all options", e),
                Reply::Response(response) => insist(
                    response.effects is Some,
                    "Response should include effects",
                    insist(
                        response.has_object_changes,
                        "Response should include object_changes",
                        insist(
                            response.balance_changes is Some,
                            "Response should include balance_changes",
                            insist(
                                response.transaction is Some,
                                "Response should include transaction from with_input()",
                                insist(
                                    response.raw_transaction.len() > 0,
                                    "Response should include raw_transaction from with_raw_input()",
                                    Next::Passed,
                                ),
                            ),
                        ),
                    ),
                ),
                _ => unexpected(),
            },
        }
    }

    fn step(self, reply: Reply) -> (r: Next<ExecuteRun>) {
        let me: SuiAddress = self.sender;
        match self.stage {
            ExecuteStage::Checkpoint => match reply {
                Reply::RpcError(e) => failed("get_latest_checkpoint", e),
                Reply::Checkpoint(checkpoint) => {
                    if checkpoint.sequence_number == 0 {
                        return refuted("Latest checkpoint sequence number should be > 0");
                    }
                    Self::ask(me, ExecuteStage::ProtocolConfig, Request::GrpcGetProtocolConfig)
                },
                _ => unexpected(),
            },
            ExecuteStage::ProtocolConfig => match reply {
                Reply::RpcError(e) => failed("get_protocol_config", e),
                Reply::OptionalNumber(None) => refuted("Protocol version should be present"),
                Reply::OptionalNumber(Some(version)) => {
                    if version == 0 {
                        return refuted("Protocol version should be > 0");
                    }
                    Self::ask(me, ExecuteStage::ChainIdentifier, Request::GrpcGetChainIdentifier)
                },
                _ => unexpected(),
            },
            ExecuteStage::ChainIdentifier => match reply {
                Reply::RpcError(e) => failed("get_chain_identifier", e),
                Reply::Text(chain_id) => {
                    if chain_id.as_str().unicode_len() == 0 {
                        return refuted("Chain identifier should not be empty");
                    }
                    Self::ask(
                        me,
                        ExecuteStage::Coins,
                        Request::GetSuiFromFaucet { minimum_coins: 1 },
                    )
                },
                _ => unexpected(),
            },
            ExecuteStage::Coins => match reply {
                Reply::Coins(_) => Self::ask(
                    me,
                    ExecuteStage::Transactions,
                    Request::MakeTransactions { max_txn_num: 4 },
                ),
                _ => unexpected(),
            },
            ExecuteStage::Transactions => match reply {
                Reply::Transactions(txns) => {
                    let mut txns: Vec<SignedTransaction> = txns;
                    if txns.len() < 4 {
                        return Next::Panicked(
                            Violation::TooFewGasObjects { needed: 4, got: txns.len() },
                        );
                    }
                    let txn: SignedTransaction = txns.swap_remove(0);
                    let next: SignedTransaction = txns.swap_remove(0);
                    Self::ask(
                        me,
                        ExecuteStage::EffectsCert { digest: txn.digest, next },
                        Request::ExecuteTransactionBlock {
                            transaction: txn.handle,
                            options: ResponseOptions::new().with_effects(),
                            request_type: ExecuteTransactionRequestType::WaitForEffectsCert,
                        },
                    )
                },
                _ => unexpected(),
            },
            ExecuteStage::EffectsCert { digest, next } => match reply {
                Reply::RpcError(e) => failed_plainly(e),
                Reply::Response(response) => match check_execution(digest, false, response) {
                    Some(v) => Next::Panicked(v),
                    None => Self::ask(
                        me,
                        ExecuteStage::EffectsCertSync { digest, next },
                        Request::LetFullnodeSync { digests: Digests::One(digest), timeout_sec: 5 },
                    ),
                },
                _ => unexpected(),
            },
            ExecuteStage::EffectsCertSync { digest, next } => match reply {
                Reply::Synced => Self::ask(
                    me,
                    ExecuteStage::VerifyFirst { digest, next },
                    Request::GrpcGetTransaction { digest },
                ),
                _ => unexpected(),
            },
            ExecuteStage::VerifyFirst { digest, next } => {
                let wrong: Option<Violation> = FullNodeExecuteTransactionTest::verify_transaction(
                    digest,
                    reply,
                );
                match wrong {
                    Some(v) => Next::Panicked(v),
                    None => Self::ask(
                        me,
                        ExecuteStage::LocalExecution { digest: next.digest },
                        Request::ExecuteTransactionBlock {
                            transaction: next.handle,
                            options: ResponseOptions::new().with_effects(),
                            request_type: ExecuteTransactionRequestType::WaitForLocalExecution,
                        },
                    ),
                }
            },
            ExecuteStage::LocalExecution { digest } => match reply {
                Reply::RpcError(e) => failed_plainly(e),
                Reply::Response(response) => match check_execution(digest, true, response) {
                    Some(v) => Next::Panicked(v),
                    None => Self::ask(
                        me,
                        ExecuteStage::VerifySecond { digest },
                        Request::GrpcGetTransaction { digest },
                    ),
                },
                _ => unexpected(),
            },
            ExecuteStage::VerifySecond { digest } => {
                let wrong: Option<Violation> = FullNodeExecuteTransactionTest::verify_transaction(
                    digest,
                    reply,
                );
                match wrong {
                    Some(v) => Next::Panicked(v),
                    None => Self::ask(
                        me,
                        ExecuteStage::Query { digest },
                        Request::QueryTransactionBlocks { from: me, limit: 10, descending: true },
                    ),
                }
            },
            ExecuteStage::Query { digest } => match reply {
                Reply::RpcError(e) => failed("query_transaction_blocks", e),
                Reply::TransactionDigests(found) => {
                    if found.len() == 0 {
                        return refuted("Should find at least one transaction from the sender");
                    }
                    if !contains_digest(&found, &digest) {
                        return refuted("Query results should include the just-executed transaction");
                    }
                    Self::ask(
                        me,
                        ExecuteStage::AllOptions,
                        Request::GetTransaction { digest, options: all_options() },
                    )
                },
                _ => unexpected(),
            },
            ExecuteStage::AllOptions => match reply {
                Reply::RpcError(e) => failed("get_transaction_with_options with all options", e),
                Reply::Response(response) => {
                    if response.effects.is_none() {
                        return refuted("Response should include effects");
                    }
                    if !response.has_object_changes {
                        return refuted("Response should include object_changes");
                    }
                    if response.balance_changes.is_none() {
                        return refuted("Response should include balance_changes");
                    }
                    if response.transaction.is_none() {
                        return refuted("Response should include transaction from with_input()");
                    }
                    if response.raw_transaction.len() == 0 {
                        return refuted("Response should include raw_transaction from with_raw_input()");
                    }
                    Next::Passed
                },
                _ => unexpected(),
            },
        }
    }

    proof fn understands_answers(self, reply: Reply, answer: Reply) {
    }

    proof fn fails_on_errors_only(self, reply: Reply) {
    }

    open spec fn replies_left(self) -> nat {
        match self.stage {
            ExecuteStage::Checkpoint => 12,
            ExecuteStage::ProtocolConfig => 11,
            ExecuteStage::ChainIdentifier => 10,
            ExecuteStage::Coins => 9,
            ExecuteStage::Transactions => 8,
            ExecuteStage::EffectsCert { .. } => 7,
            ExecuteStage::EffectsCertSync { .. } => 6,
            ExecuteStage::VerifyFirst { .. } => 5,
            ExecuteStage::LocalExecution { .. } => 4,
            ExecuteStage::VerifySecond { .. } => 3,
            ExecuteStage::Query { .. } => 2,
            ExecuteStage::AllOptions => 1,
        }
    }

    proof fn comes_closer_to_its_end(self, reply: Reply) {
    }
}

impl TestCaseImpl for FullNodeExecuteTransactionTest {
    type Run = ExecuteRun;

    open spec fn case_name(&self) -> &'static str {
        "FullNodeExecuteTransaction"
    }

    open spec fn case_description(&self) -> &'static str {
        "Test executing transaction via Fullnode Quorum Driver"
    }

    open spec fn case_rpcs(&self) -> Seq<&'static str> {
        seq!["sui_executeTransactionBlock", "suix_queryTransactionBlocks"]
    }

    open spec fn first(&self, sender: SuiAddress) -> Next<ExecuteRun> {
        ExecuteRun::ask(
            sender,
            ExecuteStage::Checkpoint,
            Request::GrpcGetLatestCheckpoint,
        )
    }

    fn name(&self) -> (r: &'static str) {
        "FullNodeExecuteTransaction"
    }

    fn description(&self) -> (r: &'static str) {
        "Test executing transaction via Fullnode Quorum Driver"
    }

    fn rpcs_tested(&self) -> (r: Vec<&'static str>) {
        let r: Vec<&'static str> = vec!["sui_executeTransactionBlock", "suix_queryTransactionBlocks"];
        assert(r@ =~= self.case_rpcs());
        r
    }

    fn run(&self, ctx: &TestContext) -> (r: Next<ExecuteRun>) {
        ExecuteRun::ask(
            ctx.get_wallet_address(),
            ExecuteStage::Checkpoint,
            Request::GrpcGetLatestCheckpoint,
        )
    }

    proof fn understands_first_answer(&self, sender: SuiAddress, answer: Reply) {
    }
}

/// After a transaction that the fullnode has only an effects certificate of, the
/// case waits until the fullnode observes it; after one that the fullnode has
/// executed itself, it does not wait.
pub proof fn only_local_execution_needs_no_sync(
    run: ExecuteRun,
    response: TransactionBlockResponse,
)
    requires
        run.next(Reply::Response(response)) is Ask,
    ensures
        run.next(Reply::Response(response))->Ask_1 == (if response.confirmed_local_execution
            == Some(true) {
            Request::GrpcGetTransaction { digest: response.digest }
        } else {
            Request::LetFullnodeSync { digests: Digests::One(response.digest), timeout_sec: 5 }
        }),
{
}

/// The replies on the cluster's state: it has a checkpoint, a protocol version
/// and an identifier.
pub open spec fn state_holds(r: Seq<Reply>) -> bool {
    &&& r.len() >= 3
    &&& r[0] is Checkpoint && r[0]->Checkpoint_0.sequence_number > 0
    &&& r[1] is OptionalNumber && r[1]->OptionalNumber_0 is Some
        && r[1]->OptionalNumber_0->0 > 0
    &&& r[2] is Text && r[2]->Text_0@.len() > 0
}

/// Whether a response reports that the transaction was executed, by the
/// fullnode itself if `local` and not by it otherwise.
pub open spec fn executed_well(
    response: TransactionBlockResponse,
    digest: TransactionDigest,
    local: bool,
) -> bool {
    &&& response.confirmed_local_execution == Some(local)
    &&& response.digest == digest
    &&& response.effects == Some(ExecutionStatus::Success)
}

/// The replies on the transactions: the first and the last that were made are
/// executed and known to the fullnode; the last is found by its sender, and with
/// every part of it.
pub open spec fn executions_hold(r: Seq<Reply>) -> bool {
    let txns = r[4]->Transactions_0@;
    &&& r.len() >= 12
    &&& r[3] is Coins
    &&& r[4] is Transactions && r[4]->Transactions_0.len() >= 4
    &&& r[5] is Response && executed_well(r[5]->Response_0, txns[0].digest, false)
    &&& r[6] is Synced
    &&& r[7] is Executed
    &&& r[8] is Response && executed_well(r[8]->Response_0, txns.last().digest, true)
    &&& r[9] is Executed
    &&& r[10] is TransactionDigests
        && r[10]->TransactionDigests_0@.contains(txns.last().digest)
    &&& r[11] is Response && r[11]->Response_0.effects is Some
        && r[11]->Response_0.has_object_changes && r[11]->Response_0.balance_changes is Some
        && r[11]->Response_0.transaction is Some && r[11]->Response_0.raw_transaction.len() > 0
}

proof fn from_coins(run: ExecuteRun, request: Request, r: Seq<Reply>)
    requires
        run.stage is Coins,
    ensures
        played(Next::Ask(run, request), r, 3) is Passed <==> executions_hold(r),
{
    reveal_with_fuel(played, 10);
}

/// The case passes if and only if the cluster tells its state, and executes the
/// transactions and shows them again.
pub proof fn fullnode_execute_passes_exactly_when(sender: SuiAddress, replies: Seq<Reply>)
    ensures
        played(FullNodeExecuteTransactionTest.first(sender), replies, 0) is Passed <==> state_holds(
            replies,
        ) && executions_hold(replies),
{
    reveal_with_fuel(played, 4);
    from_coins(
        ExecuteRun { sender, stage: ExecuteStage::Coins },
        Request::GetSuiFromFaucet { minimum_coins: 1 },
        replies,
    );
}

/// Whatever the replies are, after twelve of them the case has ended.
pub proof fn fullnode_execute_ends(sender: SuiAddress, replies: Seq<Reply>)
    requires
        replies.len() >= 12,
    ensures
        !(played(FullNodeExecuteTransactionTest.first(sender), replies, 0) is Ask),
{
    every_case_ends(FullNodeExecuteTransactionTest, sender, replies);
}

/// The stage after the first `k` replies, as long as the case goes on.
spec fn stage_after(sender: SuiAddress, r: Seq<Reply>, k: nat) -> ExecuteStage {
    if k == 0 {
        ExecuteStage::Checkpoint
    } else if k == 1 {
        ExecuteStage::ProtocolConfig
    } else if k == 2 {
        ExecuteStage::ChainIdentifier
    } else if k == 3 {
        ExecuteStage::Coins
    } else if k == 4 {
        ExecuteStage::Transactions
    } else if k == 5 {
        ExecuteStage::EffectsCert {
            digest: r[4]->Transactions_0@[0].digest,
            next: r[4]->Transactions_0@.last(),
        }
    } else if k == 6 {
        ExecuteStage::EffectsCertSync {
            digest: r[4]->Transactions_0@[0].digest,
            next: r[4]->Transactions_0@.last(),
        }
    } else if k == 7 {
        ExecuteStage::VerifyFirst {
            digest: r[4]->Transactions_0@[0].digest,
            next: r[4]->Transactions_0@.last(),
        }
    } else if k == 8 {
        ExecuteStage::LocalExecution {
            digest: r[4]->Transactions_0@.last().digest,
        }
    } else if k == 9 {
        ExecuteStage::VerifySecond {
            digest: r[4]->Transactions_0@.last().digest,
        }
    } else if k == 10 {
        ExecuteStage::Query {
            digest: r[4]->Transactions_0@.last().digest,
        }
    } else {
        ExecuteStage::AllOptions
    }
}

proof fn stands_at_its_stage(sender: SuiAddress, r: Seq<Reply>, k: nat)
    requires
        stands(FullNodeExecuteTransactionTest.first(sender), r, k) is Ask,
    ensures
        k < 12,
        stands(FullNodeExecuteTransactionTest.first(sender), r, k)->Ask_0 == (ExecuteRun {
            sender,
            stage: stage_after(sender, r, k),
        }),
    decreases k,
{
    if k > 0 {
        stands_at_its_stage(sender, r, (k - 1) as nat);
    }
}

/// What the case asks for after each reply, in terms of the replies so far:
/// the first and the last of the transactions that were made are executed, the
/// first up to its certificate, the last by the fullnode itself.
pub proof fn fullnode_execute_asks_in_turn(sender: SuiAddress, r: Seq<Reply>, k: nat)
    ensures
        stands(FullNodeExecuteTransactionTest.first(sender), r, 0) is Ask,
        stands(FullNodeExecuteTransactionTest.first(sender), r, k) is Ask ==> k < 12,
        k == 0 ==> asks(
            stands(FullNodeExecuteTransactionTest.first(sender), r, k),
            Request::GrpcGetLatestCheckpoint,
        ),
        k == 1 && stands(FullNodeExecuteTransactionTest.first(sender), r, k) is Ask ==> asks(
            stands(FullNodeExecuteTransactionTest.first(sender), r, k),
            Request::GrpcGetProtocolConfig,
        ),
        k == 2 && stands(FullNodeExecuteTransactionTest.first(sender), r, k) is Ask ==> asks(
            stands(FullNodeExecuteTransactionTest.first(sender), r, k),
            Request::GrpcGetChainIdentifier,
        ),
        k == 3 && stands(FullNodeExecuteTransactionTest.first(sender), r, k) is Ask ==> asks(
            stands(FullNodeExecuteTransactionTest.first(sender), r, k),
            Request::GetSuiFromFaucet { minimum_coins: 1 },
        ),
        k == 4 && stands(FullNodeExecuteTransactionTest.first(sender), r, k) is Ask ==> asks(
            stands(FullNodeExecuteTransactionTest.first(sender), r, k),
            Request::MakeTransactions { max_txn_num: 4 },
        ),
        k == 5 && stands(FullNodeExecuteTransactionTest.first(sender), r, k) is Ask ==> asks(
            stands(FullNodeExecuteTransactionTest.first(sender), r, k),
            Request::ExecuteTransactionBlock {
                transaction: r[4]->Transactions_0@[0].handle,
                options: ResponseOptions {
                    effects: true,
                    events: false,
                    object_changes: false,
                    balance_changes: false,
                    input: false,
                    raw_input: false,
                },
                request_type: ExecuteTransactionRequestType::WaitForEffectsCert,
            },
        ),
        k == 6 && stands(FullNodeExecuteTransactionTest.first(sender), r, k) is Ask ==> asks(
            stands(FullNodeExecuteTransactionTest.first(sender), r, k),
            Request::LetFullnodeSync {
                digests: Digests::One(r[4]->Transactions_0@[0].digest),
                timeout_sec: 5,
            },
        ),
        k == 7 && stands(FullNodeExecuteTransactionTest.first(sender), r, k) is Ask ==> asks(
            stands(FullNodeExecuteTransactionTest.first(sender), r, k),
            Request::GrpcGetTransaction { digest: r[4]->Transactions_0@[0].digest },
        ),
        k == 8 && stands(FullNodeExecuteTransactionTest.first(sender), r, k) is Ask ==> asks(
            stands(FullNodeExecuteTransactionTest.first(sender), r, k),
            Request::ExecuteTransactionBlock {
                transaction: r[4]->Transactions_0@.last().handle,
                options: ResponseOptions {
                    effects: true,
                    events: false,
                    object_changes: false,
                    balance_changes: false,
                    input: false,
                    raw_input: false,
                },
                request_type: ExecuteTransactionRequestType::WaitForLocalExecution,
            },
        ),
        k == 9 && stands(FullNodeExecuteTransactionTest.first(sender), r, k) is Ask ==> asks(
            stands(FullNodeExecuteTransactionTest.first(sender), r, k),
            Request::GrpcGetTransaction { digest: r[4]->Transactions_0@.last().digest },
        ),
        k == 10 && stands(FullNodeExecuteTransactionTest.first(sender), r, k) is Ask ==> asks(
            stands(FullNodeExecuteTransactionTest.first(sender), r, k),
            Request::QueryTransactionBlocks { from: sender, limit: 10, descending: true },
        ),
        k == 11 && stands(FullNodeExecuteTransactionTest.first(sender), r, k) is Ask ==> asks(
            stands(FullNodeExecuteTransactionTest.first(sender), r, k),
            Request::GetTransaction {
                digest: r[4]->Transactions_0@.last().digest,
                options: ResponseOptions {
                    effects: true,
                    events: true,
                    object_changes: true,
                    balance_changes: true,
                    input: true,
                    raw_input: true,
                },
            },
        ),
{
    if stands(FullNodeExecuteTransactionTest.first(sender), r, k) is Ask {
        stands_at_its_stage(sender, r, k);
        if k > 0 {
            stands_at_its_stage(sender, r, (k - 1) as nat);
        }
    }
}

/// What the case makes of each reply, in terms of the replies so far: on which it
/// goes on, and how it ends on every other.
pub proof fn fullnode_execute_judges_in_turn(sender: SuiAddress, r: Seq<Reply>, k: nat)
    requires
        stands(FullNodeExecuteTransactionTest.first(sender), r, k) is Ask,
    ensures
        k == 0 ==> ({
            let n = stands(FullNodeExecuteTransactionTest.first(sender), r, k + 1);
            match r[0] {
                Reply::RpcError(e) => fails(n, Some("get_latest_checkpoint"), e),
                Reply::Checkpoint(checkpoint) => if !(checkpoint.sequence_number > 0) {
                    panics(
                        n,
                        Violation::Assertion("Latest checkpoint sequence number should be > 0"),
                    )
                } else {
                    n is Ask
                },
                _ => panics(n, Violation::UnexpectedReply),
            }
        }),
        k == 1 ==> ({
            let n = stands(FullNodeExecuteTransactionTest.first(sender), r, k + 1);
            match r[1] {
                Reply::RpcError(e) => fails(n, Some("get_protocol_config"), e),
                Reply::OptionalNumber(None) => panics(
                    n,
                    Violation::Assertion("Protocol version should be present"),
                ),
                Reply::OptionalNumber(Some(version)) => if !(version > 0) {
                    panics(n, Violation::Assertion("Protocol version should be > 0"))
                } else {
                    n is Ask
                },
                _ => panics(n, Violation::UnexpectedReply),
            }
        }),
        k == 2 ==> ({
            let n = stands(FullNodeExecuteTransactionTest.first(sender), r, k + 1);
            match r[2] {
                Reply::RpcError(e) => fails(n, Some("get_chain_identifier"), e),
                Reply::Text(id) => if !(id@.len() > 0) {
                    panics(n, Violation::Assertion("Chain identifier should not be empty"))
                } else {
                    n is Ask
                },
                _ => panics(n, Violation::UnexpectedReply),
            }
        }),
        k == 3 ==> ({
            let n = stands(FullNodeExecuteTransactionTest.first(sender), r, k + 1);
            match r[3] {
                Reply::Coins(_) => n is Ask,
                _ => panics(n, Violation::UnexpectedReply),
            }
        }),
        k == 4 ==> ({
            let n = stands(FullNodeExecuteTransactionTest.first(sender), r, k + 1);
            match r[4] {
                Reply::Transactions(txns) => if !(txns@.len() >= 4) {
                    panics(n, Violation::TooFewGasObjects { needed: 4, got: txns.len() })
                } else {
                    n is Ask
                },
                _ => panics(n, Violation::UnexpectedReply),
            }
        }),
        k == 5 ==> ({
            let n = stands(FullNodeExecuteTransactionTest.first(sender), r, k + 1);
            match r[5] {
                Reply::RpcError(e) => fails(n, None, e),
                Reply::Response(response) => if response.confirmed_local_execution is None {
                    panics(n, Violation::Assertion("called `Option::unwrap()` on a `None` value"))
                } else if response.confirmed_local_execution != Some(false) {
                    panics(
                        n,
                        Violation::Assertion(
                            "assertion failed: !response.confirmed_local_execution.unwrap()",
                        ),
                    )
                } else if response.digest != r[4]->Transactions_0@[0].digest {
                    panics(
                        n,
                        Violation::Unequal {
                            message: "",
                            left: Shown::Transaction(r[4]->Transactions_0@[0].digest),
                            right: Shown::Transaction(response.digest),
                        },
                    )
                } else {
                    match response.effects {
                        None => panics(
                            n,
                            Violation::Assertion("called `Option::unwrap()` on a `None` value"),
                        ),
                        Some(ExecutionStatus::Failure { error }) => panics(
                            n,
                            Violation::TransferFailed {
                                digest: r[4]->Transactions_0@[0].digest,
                                error,
                            },
                        ),
                        Some(ExecutionStatus::Success) => n is Ask,
                    }
                },
                _ => panics(n, Violation::UnexpectedReply),
            }
        }),
        k == 6 ==> ({
            let n = stands(FullNodeExecuteTransactionTest.first(sender), r, k + 1);
            match r[6] {
                Reply::Synced => n is Ask,
                _ => panics(n, Violation::UnexpectedReply),
            }
        }),
        k == 7 ==> ({
            let n = stands(FullNodeExecuteTransactionTest.first(sender), r, k + 1);
            match r[7] {
                Reply::RpcError(failure) => panics(
                    n,
                    Violation::TransactionNotFound {
                        digest: r[4]->Transactions_0@[0].digest,
                        failure,
                    },
                ),
                Reply::Executed(_) => n is Ask,
                _ => panics(n, Violation::UnexpectedReply),
            }
        }),
        k == 8 ==> ({
            let n = stands(FullNodeExecuteTransactionTest.first(sender), r, k + 1);
            match r[8] {
                Reply::RpcError(e) => fails(n, None, e),
                Reply::Response(response) => if response.confirmed_local_execution is None {
                    panics(n, Violation::Assertion("called `Option::unwrap()` on a `None` value"))
                } else if response.confirmed_local_execution != Some(true) {
                    panics(
                        n,
                        Violation::Assertion(
                            "assertion failed: response.confirmed_local_execution.unwrap()",
                        ),
                    )
                } else if response.digest != r[4]->Transactions_0@.last().digest {
                    panics(
                        n,
                        Violation::Unequal {
                            message: "",
                            left: Shown::Transaction(r[4]->Transactions_0@.last().digest),
                            right: Shown::Transaction(response.digest),
                        },
                    )
                } else {
                    match response.effects {
                        None => panics(
                            n,
                            Violation::Assertion("called `Option::unwrap()` on a `None` value"),
                        ),
                        Some(ExecutionStatus::Failure { error }) => panics(
                            n,
                            Violation::TransferFailed {
                                digest: r[4]->Transactions_0@.last().digest,
                                error,
                            },
                        ),
                        Some(ExecutionStatus::Success) => n is Ask,
                    }
                },
                _ => panics(n, Violation::UnexpectedReply),
            }
        }),
        k == 9 ==> ({
            let n = stands(FullNodeExecuteTransactionTest.first(sender), r, k + 1);
            match r[9] {
                Reply::RpcError(failure) => panics(
                    n,
                    Violation::TransactionNotFound {
                        digest: r[4]->Transactions_0@.last().digest,
                        failure,
                    },
                ),
                Reply::Executed(_) => n is Ask,
                _ => panics(n, Violation::UnexpectedReply),
            }
        }),
        k == 10 ==> ({
            let n = stands(FullNodeExecuteTransactionTest.first(sender), r, k + 1);
            match r[10] {
                Reply::RpcError(e) => fails(n, Some("query_transaction_blocks"), e),
                Reply::TransactionDigests(found) => if !(found@.len() > 0) {
                    panics(
                        n,
                        Violation::Assertion(
                            "Should find at least one transaction from the sender",
                        ),
                    )
                } else if !(found@.contains(r[4]->Transactions_0@.last().digest)) {
                    panics(
                        n,
                        Violation::Assertion(
                            "Query results should include the just-executed transaction",
                        ),
                    )
                } else {
                    n is Ask
                },
                _ => panics(n, Violation::UnexpectedReply),
            }
        }),
        k == 11 ==> ({
            let n = stands(FullNodeExecuteTransactionTest.first(sender), r, k + 1);
            match r[11] {
                Reply::RpcError(e) => fails(
                    n,
                    Some("get_transaction_with_options with all options"),
                    e,
                ),
                Reply::Response(response) => if !(response.effects is Some) {
                    panics(n, Violation::Assertion("Response should include effects"))
                } else if !(response.has_object_changes) {
                    panics(n, Violation::Assertion("Response should include object_changes"))
                } else if !(response.balance_changes is Some) {
                    panics(n, Violation::Assertion("Response should include balance_changes"))
                } else if !(response.transaction is Some) {
                    panics(
                        n,
                        Violation::Assertion(
                            "Response should include transaction from with_input()",
                        ),
                    )
                } else if !(response.raw_transaction@.len() > 0) {
                    panics(
                        n,
                        Violation::Assertion(
                            "Response should include raw_transaction from with_raw_input()",
                        ),
                    )
                } else {
                    n is Passed
                },
                _ => panics(n, Violation::UnexpectedReply),
            }
        }),
{
    stands_at_its_stage(sender, r, k);
}

} // verus!
