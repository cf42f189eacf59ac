//! What every test case shares: the cluster it runs against and the wallet it
//! acts for.
use crate::faucet::{FaucetNext, FaucetRun, FaucetStage};
use crate::protocol::{
    ExecuteTransactionRequestType, Reply, Request, ResponseOptions, TransactionBlockResponse,
    TransactionHandle,
};
use crate::sync::{FullnodeSync, SyncView};
use crate::values::{ExecutionStatus, SuiAddress, TransactionDigest};
use crate::violation::Violation;
use vstd::prelude::*;

verus! {

/// The client side of a cluster: the wallet that test cases act for.
#[derive(Clone, Copy, Debug, PartialEq, Eq)]
pub struct WalletClient {
    pub wallet_address: SuiAddress,
}

impl WalletClient {
    pub fn get_wallet_address(&self) -> (r: SuiAddress)
        ensures
            r == self.wallet_address,
    {
        self.wallet_address
    }
}

/// What every test case is run with.
#[derive(Debug, PartialEq, Eq)]
pub struct TestContext {
    /// Where the cluster's fullnode is reached.
    pub fullnode_url: String,
    /// The wallet, and through it the fullnode.
    pub client: WalletClient,
}

impl TestContext {
    pub open spec fn address(self) -> SuiAddress {
        self.client.wallet_address
    }

    pub fn get_context(&self) -> (r: &WalletClient)
        ensures
            *r == self.client,
    {
        &self.client
    }

    pub fn get_fullnode_rpc_url(&self) -> (r: &str)
        ensures
            r@ == self.fullnode_url@,
    {
        self.fullnode_url.as_str()
    }

    pub fn get_wallet_address(&self) -> (r: SuiAddress)
        ensures
            r == self.address(),
    {
        self.client.get_wallet_address()
    }

    /// Begins to get coins for the wallet from the faucet, at least one unless
    /// more are asked for.
    pub fn get_sui_from_faucet(&self, minimum_coins: Option<usize>) -> (r: FaucetNext)
        ensures
            r == (FaucetNext::RequestSuiCoins {
                run: FaucetRun {
                    address: self.address(),
                    minimum_coins: match minimum_coins {
                        Some(n) => n,
                        None => 1,
                    },
                    stage: FaucetStage::Asked,
                },
                address: self.address(),
            }),
    {
        FaucetRun::start(self.get_wallet_address(), minimum_coins)
    }

    /// Begins to wait until the fullnode has observed transactions.
    pub fn let_fullnode_sync(
        &self,
        digests: Vec<TransactionDigest>,
        timeout_sec: u64,
    ) -> (r: FullnodeSync)
        ensures
            r.digests == digests,
            r.wf(),
            r@ == SyncView::started(digests@, timeout_sec),
    {
        FullnodeSync::new(digests, timeout_sec)
    }

    /// How `sign_and_execute` submits a signed transaction.
    #[verifier::allow_in_spec]
    pub fn submission(transaction: TransactionHandle) -> Request
        returns
            (Request::ExecuteTransactionBlock {
                transaction,
                options: ResponseOptions {
                    effects: true,
                    events: true,
                    object_changes: true,
                    balance_changes: true,
                    input: false,
                    raw_input: false,
                },
                request_type: ExecuteTransactionRequestType::WaitForLocalExecution,
            }),
    {
        Request::ExecuteTransactionBlock {
            transaction,
            options: ResponseOptions::new().with_object_changes().with_balance_changes()
                .with_effects().with_events(),
            request_type: ExecuteTransactionRequestType::WaitForLocalExecution,
        }
    }

    /// The response to a submitted transaction, or why it does not count as
    /// executed.
    pub open spec fn executed(
        description: &'static str,
        reply: Reply,
    ) -> Result<TransactionBlockResponse, Violation> {
        match reply {
            Reply::RpcError(failure) => Err(Violation::SubmissionFailed { description, failure }),
            Reply::Response(response) => match response.effects {
                None => Err(
                    Violation::Assertion("called `Option::unwrap()` on a `None` value"),
                ),
                Some(ExecutionStatus::Success) => Ok(response),
                Some(ExecutionStatus::Failure { .. }) => Err(
                    Violation::ExecutionFailed { description, response },
                ),
            },
            _ => Err(Violation::UnexpectedReply),
        }
    }

    /// Takes the reply to the submission of a signed transaction, which has to be
    /// executed with success.
    pub fn sign_and_execute(description: &'static str, reply: Reply) -> (r: Result<
        TransactionBlockResponse,
        Violation,
    >)
        ensures
            r == Self::executed(description, reply),
    {
        match reply {
            Reply::RpcError(failure) => Err(Violation::SubmissionFailed { description, failure }),
            Reply::Response(response) => match &response.effects {
                None => Err(
                    Violation::Assertion("called `Option::unwrap()` on a `None` value"),
                ),
                Some(ExecutionStatus::Success) => Ok(response),
                Some(ExecutionStatus::Failure { .. }) => Err(
                    Violation::ExecutionFailed { description, response },
                ),
            },
            _ => Err(Violation::UnexpectedReply),
        }
    }
}

/// A submitted transaction counts as executed if and only if the fullnode
/// responds with the effect of success; the response is then handed on as it
/// came. Every other reply is told apart.
pub proof fn executed_exactly_when(description: &'static str, reply: Reply)
    ensures
        TestContext::executed(description, reply) is Ok <==> (reply matches Reply::Response(
            response,
        ) && response.effects == Some(ExecutionStatus::Success)),
        TestContext::executed(description, reply) matches Ok(response) ==> reply
            == Reply::Response(response),
        reply matches Reply::RpcError(failure) ==> TestContext::executed(description, reply)
            == Err::<TransactionBlockResponse, Violation>(
            Violation::SubmissionFailed { description, failure },
        ),
        reply matches Reply::Response(response) && response.effects is None
            ==> TestContext::executed(description, reply) == Err::<
            TransactionBlockResponse,
            Violation,
        >(Violation::Assertion("called `Option::unwrap()` on a `None` value")),
        reply matches Reply::Response(response) && response.effects is Some
            && response.effects->0 is Failure ==> TestContext::executed(description, reply)
            == Err::<TransactionBlockResponse, Violation>(
            Violation::ExecutionFailed { description, response: reply->Response_0 },
        ),
        !(reply is RpcError) && !(reply is Response) ==> TestContext::executed(description, reply)
            == Err::<TransactionBlockResponse, Violation>(Violation::UnexpectedReply),
{
}

/// The address of a context is that of its wallet.
pub proof fn address_is_the_wallets(ctx: TestContext)
    ensures
        ctx.address() == ctx.client.wallet_address,
{
}

} // verus!
