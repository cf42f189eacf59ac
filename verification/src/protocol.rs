//! What a test case can ask of a cluster, and what can come back.
use crate::json::Json;
use crate::object_basics::ObjectBasicsCall;
use crate::remote::RemoteCall;
use crate::values::{
    BalanceChange, CheckpointDigest, ExecutionStatus, GasCoin, ObjectID, ObjectRef, Owner,
    SuiAddress, TransactionDigest,
};
use vstd::prelude::*;

verus! {

/// A transaction that the other side keeps, by the number it goes by there.
#[derive(Clone, Copy, Debug, PartialEq, Eq)]
pub struct TransactionHandle {
    pub number: u64,
}

/// A compiled package that the other side keeps, by the number it goes by there.
#[derive(Clone, Copy, Debug, PartialEq, Eq)]
pub struct PackageHandle {
    pub number: u64,
}

/// A signed transaction that has not been submitted yet.
#[derive(Clone, Copy, Debug, PartialEq, Eq)]
pub struct SignedTransaction {
    pub handle: TransactionHandle,
    pub digest: TransactionDigest,
}

/// One or two transactions.
#[derive(Clone, Copy, Debug, PartialEq, Eq)]
pub enum Digests {
    One(TransactionDigest),
    Two(TransactionDigest, TransactionDigest),
}

impl Digests {
    pub open spec fn list(self) -> Seq<TransactionDigest> {
        match self {
            Digests::One(a) => seq![a],
            Digests::Two(a, b) => seq![a, b],
        }
    }

    /// The digests, in order.
    pub fn to_vec(&self) -> (r: Vec<TransactionDigest>)
        ensures
            r@ == self.list(),
    {
        match self {
            Digests::One(a) => {
                let r: Vec<TransactionDigest> = vec![*a];
                assert(r@ =~= self.list());
                r
            },
            Digests::Two(a, b) => {
                let r: Vec<TransactionDigest> = vec![*a, *b];
                assert(r@ =~= self.list());
                r
            },
        }
    }
}

/// Which parts of a transaction a JSON-RPC response is to hold.
#[derive(Clone, Copy, Debug, PartialEq, Eq)]
pub struct ResponseOptions {
    pub effects: bool,
    pub events: bool,
    pub object_changes: bool,
    pub balance_changes: bool,
    pub input: bool,
    pub raw_input: bool,
}

impl ResponseOptions {
    #[verifier::allow_in_spec]
    pub fn new() -> ResponseOptions
        returns
            (ResponseOptions {
                effects: false,
                events: false,
                object_changes: false,
                balance_changes: false,
                input: false,
                raw_input: false,
            }),
    {
        ResponseOptions {
            effects: false,
            events: false,
            object_changes: false,
            balance_changes: false,
            input: false,
            raw_input: false,
        }
    }

    #[verifier::allow_in_spec]
    pub fn with_effects(self) -> ResponseOptions
        returns
            (ResponseOptions { effects: true, ..self }),
    {
        ResponseOptions { effects: true, ..self }
    }

    #[verifier::allow_in_spec]
    pub fn with_events(self) -> ResponseOptions
        returns
            (ResponseOptions { events: true, ..self }),
    {
        ResponseOptions { events: true, ..self }
    }

    #[verifier::allow_in_spec]
    pub fn with_object_changes(self) -> ResponseOptions
        returns
            (ResponseOptions { object_changes: true, ..self }),
    {
        ResponseOptions { object_changes: true, ..self }
    }

    #[verifier::allow_in_spec]
    pub fn with_balance_changes(self) -> ResponseOptions
        returns
            (ResponseOptions { balance_changes: true, ..self }),
    {
        ResponseOptions { balance_changes: true, ..self }
    }

    #[verifier::allow_in_spec]
    pub fn with_input(self) -> ResponseOptions
        returns
            (ResponseOptions { input: true, ..self }),
    {
        ResponseOptions { input: true, ..self }
    }

    #[verifier::allow_in_spec]
    pub fn with_raw_input(self) -> ResponseOptions
        returns
            (ResponseOptions { raw_input: true, ..self }),
    {
        ResponseOptions { raw_input: true, ..self }
    }
}

/// How long the fullnode holds back its answer to a submitted transaction.
#[derive(Clone, Copy, Debug, PartialEq, Eq)]
pub enum ExecuteTransactionRequestType {
    WaitForEffectsCert,
    WaitForLocalExecution,
}

/// What a transaction is to do.
#[derive(Clone, Copy, Debug, PartialEq, Eq)]
pub enum TransactionKind {
    /// Splits `amount` off the gas coin and sends it to `recipient`.
    TransferSui { amount: u64, recipient: SuiAddress },
    /// Publishes a compiled package.
    Publish { compiled: PackageHandle },
    /// Calls a function of a published `object_basics` package.
    ObjectBasics { package: ObjectID, call: ObjectBasicsCall },
    /// Upgrades a published package to a compiled one.
    Upgrade {
        package: ObjectID,
        upgrade_cap: ObjectRef,
        compiled: PackageHandle,
        gas_budget: u64,
    },
}

/// A transaction that is still to be built and signed.
#[derive(Clone, Copy, Debug, PartialEq, Eq)]
pub struct TransactionPlan {
    pub sender: SuiAddress,
    pub gas: ObjectRef,
    pub gas_price: u64,
    pub kind: TransactionKind,
}

/// The Move type of an event: its name, and the number under which the other
/// side keeps the whole type.
#[derive(Debug, PartialEq, Eq)]
pub struct EventType {
    pub name: String,
    pub number: u64,
}

/// One thing that a test case asks for.
#[derive(Debug, PartialEq, Eq)]
pub enum Request {
    // Of the test context and its wallet.
    GetSuiFromFaucet { minimum_coins: usize },
    LetFullnodeSync { digests: Digests, timeout_sec: u64 },
    MakeTransactions { max_txn_num: usize },
    MakeStakingTransaction { validator: SuiAddress },
    BuildTransactionRemotely(RemoteCall),
    SignAndExecute { transaction: TransactionHandle, description: &'static str },
    GrpcSignAndExecute { plan: TransactionPlan, description: &'static str },
    GetOneGasObjectOwnedByAddress { owner: SuiAddress },
    CheckObject { object: ObjectID, owner: SuiAddress },
    // New names.
    GenerateAddress,
    RandomObjectID,
    // Packages.
    CompileExamplePackage { path: &'static str },
    PublishBasicsPackage,
    EmitNewRandomU128 { package: ObjectID },
    // Of the fullnode over JSON-RPC.
    ExecuteTransactionBlock {
        transaction: TransactionHandle,
        options: ResponseOptions,
        request_type: ExecuteTransactionRequestType,
    },
    DryRunTransactionBlock { transaction: TransactionHandle },
    DevInspectTransactionBlock { sender: SuiAddress, transaction: TransactionHandle },
    GetObject { object: ObjectID },
    GetTransaction { digest: TransactionDigest, options: ResponseOptions },
    MultiGetTransactions { digests: Digests, options: ResponseOptions },
    QueryTransactionBlocks { from: SuiAddress, limit: usize, descending: bool },
    GetTotalTransactionBlocks,
    GetLatestCheckpointSequenceNumber,
    GetCheckpoint { sequence_number: u64 },
    GetCheckpoints { limit: usize, descending: bool },
    GetEvents { digest: TransactionDigest },
    QueryEvents { event_type: EventType, limit: usize, descending: bool },
    GetDynamicFieldObject { parent: ObjectID, name: bool },
    GetLatestSuiSystemState,
    GetCommitteeInfo,
    GetReferenceGasPrice,
    GetTotalSupply { coin_type: &'static str },
    BuildRpcClient,
    GetValidatorsApy,
    GetStakes { owner: SuiAddress },
    // Of the fullnode over gRPC.
    GrpcGetLatestCheckpoint,
    GrpcGetCheckpointSummary { sequence_number: u64 },
    GrpcGetFullCheckpoint { sequence_number: u64 },
    GrpcGetTransaction { digest: TransactionDigest },
    GrpcGetObject { object: ObjectID },
    GrpcBatchGetObjects { first: ObjectID, second: ObjectID },
    GrpcGetDynamicFields { parent: ObjectID, page_size: u32 },
    GrpcGetProtocolConfig,
    GrpcGetChainIdentifier,
    GrpcGetReferenceGasPrice,
    GrpcGetSystemStateSummary,
    GrpcGetCommittee,
    GrpcGetSuiCoinInfo,
    GrpcListDelegatedStake { owner: SuiAddress },
}

/// A transaction as JSON-RPC shows it. What was not asked for is left out.
#[derive(Debug, PartialEq, Eq)]
pub struct TransactionBlockResponse {
    pub digest: TransactionDigest,
    pub effects: Option<ExecutionStatus>,
    pub has_object_changes: bool,
    pub balance_changes: Option<Vec<BalanceChange>>,
    /// The sender that the transaction's input names.
    pub transaction: Option<SuiAddress>,
    pub raw_transaction: Vec<u8>,
    pub confirmed_local_execution: Option<bool>,
    /// The whole response as it was received, shown for debugging.
    pub debug: String,
}

/// An object that a transaction created.
#[derive(Clone, Copy, Debug, PartialEq, Eq)]
pub struct CreatedObject {
    pub id: ObjectID,
    pub owner: Owner,
}

/// A change of one balance as gRPC shows it.
#[derive(Clone, Copy, Debug, PartialEq, Eq)]
pub struct AccountBalanceChange {
    pub address: SuiAddress,
    pub amount: i128,
}

/// An executed transaction as gRPC shows it.
#[derive(Debug, PartialEq, Eq)]
pub struct ExecutedTransaction {
    pub digest: TransactionDigest,
    pub sender: SuiAddress,
    pub status: ExecutionStatus,
    pub created: Vec<CreatedObject>,
    pub mutated: Vec<ObjectID>,
    pub balance_changes: Vec<AccountBalanceChange>,
    pub new_package: Option<ObjectRef>,
    pub new_upgrade_cap: Option<ObjectRef>,
}

/// A dry run of a transaction.
#[derive(Debug, PartialEq, Eq)]
pub struct DryRun {
    pub status: ExecutionStatus,
    pub balance_changes: Vec<BalanceChange>,
}

/// What is at an object's identifier: its data, or why there is none.
#[derive(Clone, Copy, Debug, PartialEq, Eq)]
pub struct ObjectResponse {
    pub has_data: bool,
    pub has_error: bool,
}

/// The state of the system object.
#[derive(Debug, PartialEq, Eq)]
pub struct SystemState {
    pub epoch: u64,
    pub reference_gas_price: u64,
    /// The addresses of the active validators.
    pub active_validators: Vec<SuiAddress>,
}

/// The committee of an epoch.
#[derive(Clone, Copy, Debug, PartialEq, Eq)]
pub struct Committee {
    pub epoch: u64,
    pub members: usize,
}

/// A checkpoint's summary.
#[derive(Clone, Copy, Debug, PartialEq, Eq)]
pub struct Checkpoint {
    pub sequence_number: u64,
    pub epoch: u64,
    pub digest: CheckpointDigest,
}

/// What is known of a coin's treasury.
#[derive(Clone, Copy, Debug, PartialEq, Eq)]
pub struct Treasury {
    pub total_supply: Option<u64>,
}

/// The stakes of one account with one validator.
#[derive(Debug, PartialEq, Eq)]
pub struct DelegatedStake {
    pub validator_address: SuiAddress,
    pub stakes: Vec<ObjectID>,
}

/// The error of a call that failed, in the ways in which it can be written.
#[derive(Debug, PartialEq, Eq)]
pub struct CallError {
    /// The error alone.
    pub plain: String,
    /// The error, then what it came from, in one line.
    pub chain: String,
    /// The error as it is shown for debugging.
    pub debug: String,
}

/// What comes back for a request.
#[derive(Debug, PartialEq, Eq)]
pub enum Reply {
    /// The call failed.
    RpcError(CallError),
    Coins(Vec<GasCoin>),
    Synced,
    Transactions(Vec<SignedTransaction>),
    Transaction(SignedTransaction),
    Built(TransactionHandle),
    Response(TransactionBlockResponse),
    Executed(ExecutedTransaction),
    GasObject(Option<ObjectRef>),
    ObjectChecked,
    Address(SuiAddress),
    Object(ObjectID),
    Compiled(PackageHandle),
    ObjectReference(ObjectRef),
    DryRun(DryRun),
    Inspected(ExecutionStatus),
    ObjectResponse(ObjectResponse),
    TransactionDigests(Vec<TransactionDigest>),
    Number(u64),
    Count(usize),
    OptionalNumber(Option<u64>),
    Text(String),
    Checkpoint(Checkpoint),
    SequenceNumbers(Vec<u64>),
    Events(Vec<EventType>),
    SystemState(SystemState),
    Committee(Committee),
    Treasury(Option<Treasury>),
    ClientReady,
    Json(Json),
    Stakes(Vec<DelegatedStake>),
}

impl Request {
    /// Whether `reply` is of the kind that answers this request.
    pub open spec fn answers(self, reply: Reply) -> bool {
        match self {
            Request::GetSuiFromFaucet { .. } => reply is Coins,
            Request::LetFullnodeSync { .. } => reply is Synced,
            Request::MakeTransactions { .. } => reply is Transactions,
            Request::MakeStakingTransaction { .. } => reply is Transaction,
            Request::BuildTransactionRemotely(_) => reply is RpcError || reply is Built,
            Request::SignAndExecute { .. } => reply is Response,
            Request::GrpcSignAndExecute { .. } => reply is Executed,
            Request::GetOneGasObjectOwnedByAddress { .. } => reply is RpcError
                || reply is GasObject,
            Request::CheckObject { .. } => reply is ObjectChecked,
            Request::GenerateAddress => reply is Address,
            Request::RandomObjectID => reply is Object,
            Request::CompileExamplePackage { .. } => reply is Compiled,
            Request::PublishBasicsPackage => reply is ObjectReference,
            Request::EmitNewRandomU128 { .. } => reply is Executed,
            Request::ExecuteTransactionBlock { .. } => reply is RpcError || reply is Response,
            Request::DryRunTransactionBlock { .. } => reply is RpcError || reply is DryRun,
            Request::DevInspectTransactionBlock { .. } => reply is RpcError || reply is Inspected,
            Request::GetObject { .. } => reply is RpcError || reply is ObjectResponse,
            Request::GetTransaction { .. } => reply is RpcError || reply is Response,
            Request::MultiGetTransactions { .. } => reply is RpcError
                || reply is TransactionDigests,
            Request::QueryTransactionBlocks { .. } => reply is RpcError
                || reply is TransactionDigests,
            Request::GetTotalTransactionBlocks => reply is RpcError || reply is Number,
            Request::GetLatestCheckpointSequenceNumber => reply is RpcError || reply is Number,
            Request::GetCheckpoint { .. } => reply is RpcError || reply is Checkpoint,
            Request::GetCheckpoints { .. } => reply is RpcError || reply is SequenceNumbers,
            Request::GetEvents { .. } => reply is RpcError || reply is Events,
            Request::QueryEvents { .. } => reply is RpcError || reply is TransactionDigests,
            Request::GetDynamicFieldObject { .. } => reply is RpcError || reply is ObjectResponse,
            Request::GetLatestSuiSystemState => reply is RpcError || reply is SystemState,
            Request::GetCommitteeInfo => reply is RpcError || reply is Committee,
            Request::GetReferenceGasPrice => reply is RpcError || reply is Number,
            Request::GetTotalSupply { .. } => reply is RpcError || reply is Number,
            Request::BuildRpcClient => reply is RpcError || reply is ClientReady,
            Request::GetValidatorsApy => reply is RpcError || reply is Json,
            Request::GetStakes { .. } => reply is RpcError || reply is Stakes,
            Request::GrpcGetLatestCheckpoint => reply is RpcError || reply is Checkpoint,
            Request::GrpcGetCheckpointSummary { .. } => reply is RpcError || reply is Checkpoint,
            Request::GrpcGetFullCheckpoint { .. } => reply is RpcError || reply is Number,
            Request::GrpcGetTransaction { .. } => reply is RpcError || reply is Executed,
            Request::GrpcGetObject { .. } => reply is RpcError || reply is ObjectReference,
            Request::GrpcBatchGetObjects { .. } => reply is RpcError || reply is Count,
            Request::GrpcGetDynamicFields { .. } => reply is RpcError || reply is Count,
            Request::GrpcGetProtocolConfig => reply is RpcError || reply is OptionalNumber,
            Request::GrpcGetChainIdentifier => reply is RpcError || reply is Text,
            Request::GrpcGetReferenceGasPrice => reply is RpcError || reply is Number,
            Request::GrpcGetSystemStateSummary => reply is RpcError || reply is SystemState,
            Request::GrpcGetCommittee => reply is RpcError || reply is Committee,
            Request::GrpcGetSuiCoinInfo => reply is RpcError || reply is Treasury,
            Request::GrpcListDelegatedStake { .. } => reply is RpcError || reply is Count,
        }
    }
}

/// One digest is a list of one, two are a list of two, in order.
pub proof fn digests_are_listed_in_order(a: TransactionDigest, b: TransactionDigest)
    ensures
        Digests::One(a).list() == seq![a],
        Digests::Two(a, b).list() == seq![a, b],
{
}

} // verus!
