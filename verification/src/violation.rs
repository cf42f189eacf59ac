//! What a test case can find wrong with a cluster, and what the suite then ends
//! with.
use crate::protocol::{CallError, TransactionBlockResponse};
use crate::values::{CheckpointDigest, ObjectID, Owner, SuiAddress, TransactionDigest};
use vstd::prelude::*;
use vstd::string::StrSliceExecFns;

verus! {

/// A value as the two sides of a comparison show it.
#[derive(Debug, PartialEq, Eq)]
pub enum Shown {
    Number(u64),
    Count(usize),
    Address(SuiAddress),
    Transaction(TransactionDigest),
    Checkpoint(CheckpointDigest),
    Text(String),
    Literal(&'static str),
}

/// A condition that a test case insists on and that did not hold. It ends the
/// whole suite.
#[derive(Debug, PartialEq, Eq)]
pub enum Violation {
    /// A condition with a fixed message.
    Assertion(&'static str),
    /// Two values that had to be equal. The message is empty where the case
    /// has nothing to add.
    Unequal { message: &'static str, left: Shown, right: Shown },
    /// A transaction, or a trial of one, that had to succeed.
    NotSuccessful { message: &'static str, error: String },
    /// A transfer changed another number of balances than two.
    WrongChangeCount { got: usize },
    /// The owner of a balance has no address.
    OwnerWithoutAddress { error: String },
    /// JSON-RPC and gRPC report different total supplies.
    SupplyMismatch { json: u64, grpc: u64 },
    /// JSON-RPC lists another number of single stakes than gRPC.
    StakeCountMismatch { listed: usize, delegated: usize },
    /// The faucet refused to send coins.
    FaucetFailure { error: String },
    /// The faucet sent fewer coins than were asked for.
    TooFewCoins { minimum: usize, address: SuiAddress, got: usize },
    /// The fullnode had not seen every transaction when the time was up.
    SyncTimeout { digests: Vec<TransactionDigest>, timeout_sec: u64 },
    /// A signed transaction could not be submitted.
    SubmissionFailed { description: &'static str, failure: CallError },
    /// A submitted transaction was executed without success.
    ExecutionFailed { description: &'static str, response: TransactionBlockResponse },
    /// A transfer transaction was executed without success.
    TransferFailed { digest: TransactionDigest, error: String },
    /// Fewer transactions could be made than the case needs.
    TooFewTransactions { needed: usize, got: usize },
    /// Fewer transactions could be made than the case expects of the genesis
    /// gas objects.
    TooFewGasObjects { needed: usize, got: usize },
    /// The fullnode does not know a transaction that was executed.
    TransactionNotFound { digest: TransactionDigest, failure: CallError },
    /// gRPC reports an older checkpoint than JSON-RPC.
    CheckpointBehind { grpc: u64, json: u64 },
    /// No stake is listed for the validator that was staked with.
    StakeNotFound { validator: SuiAddress },
    /// An object that had to exist.
    ObjectMissing { object: ObjectID },
    /// An object that belongs to another owner than it had to.
    WrongOwner { object: ObjectID, expected: SuiAddress, actual: Owner },
    /// An object that had to be a gas coin.
    NotGasCoin { object: ObjectID },
    /// A balance change of another owner than it had to be.
    WrongBalanceOwner { expected: SuiAddress, actual: Owner },
    /// A balance change in another coin than SUI.
    WrongCoinType,
    /// A reply that does not answer the request that was made.
    UnexpectedReply,
}

/// A piece of a message: words, or a value that stands between them.
#[derive(Debug, PartialEq, Eq)]
pub enum Piece {
    Literal(&'static str),
    Text(String),
    Number(u64),
    Count(usize),
    Address(SuiAddress),
    Object(ObjectID),
    Owner(Owner),
    Transactions(Vec<TransactionDigest>),
    /// A value as a comparison shows it.
    Shown(Shown),
}

impl Violation {
    /// The message that the suite ends with.
    pub open spec fn pieces(self) -> Seq<Piece> {
        match self {
            Violation::Unequal { message, left, right } => {
                let head = if message@.len() == 0 {
                    seq![Piece::Literal("assertion `left == right` failed")]
                } else {
                    seq![
                        Piece::Literal("assertion `left == right` failed: "),
                        Piece::Literal(message),
                    ]
                };
                head + seq![
                    Piece::Literal("\n  left: "),
                    Piece::Shown(left),
                    Piece::Literal("\n right: "),
                    Piece::Shown(right),
                ]
            },
            Violation::Assertion(message) => seq![
                Piece::Literal(message),
            ],
            Violation::NotSuccessful { message, error } => seq![
                Piece::Literal(message),
                Piece::Literal(": "),
                Piece::Text(error),
            ],
            Violation::WrongChangeCount { got } => seq![
                Piece::Literal("assertion `left == right` failed: Expect 2 balance changes emitted, but got "),
                Piece::Count(got),
                Piece::Literal("\n  left: "),
                Piece::Count(got),
                Piece::Literal("\n right: 2"),
            ],
            Violation::OwnerWithoutAddress { error } => seq![
                Piece::Literal("called `Result::unwrap()` on an `Err` value: "),
                Piece::Text(error),
            ],
            Violation::SupplyMismatch { json, grpc } => seq![
                Piece::Literal("assertion `left == right` failed: Total supply should match between JSON-RPC ("),
                Piece::Number(json),
                Piece::Literal(") and gRPC ("),
                Piece::Number(grpc),
                Piece::Literal(")\n  left: "),
                Piece::Number(json),
                Piece::Literal("\n right: "),
                Piece::Number(grpc),
            ],
            Violation::StakeCountMismatch { listed, delegated } => seq![
                Piece::Literal("assertion `left == right` failed: Individual stake count should match: JSON-RPC="),
                Piece::Count(listed),
                Piece::Literal(", gRPC="),
                Piece::Count(delegated),
                Piece::Literal("\n  left: "),
                Piece::Count(listed),
                Piece::Literal("\n right: "),
                Piece::Count(delegated),
            ],
            Violation::FaucetFailure { error } => seq![
                Piece::Literal("Failed to get coins from faucet: "),
                Piece::Text(error),
            ],
            Violation::TooFewCoins { minimum, address, got } => seq![
                Piece::Literal("Expect to get at least "),
                Piece::Count(minimum),
                Piece::Literal(" Sui Coins for address "),
                Piece::Address(address),
                Piece::Literal(", but only got "),
                Piece::Count(got),
            ],
            Violation::SyncTimeout { digests, timeout_sec } => seq![
                Piece::Literal("Fullnode does not know all of "),
                Piece::Transactions(digests),
                Piece::Literal(" after "),
                Piece::Number(timeout_sec),
                Piece::Literal(" secs."),
            ],
            Violation::SubmissionFailed { description, failure } => seq![
                Piece::Literal("Failed to execute transaction for "),
                Piece::Literal(description),
                Piece::Literal(". "),
                Piece::Text(failure.plain),
            ],
            Violation::ExecutionFailed { description, response } => seq![
                Piece::Literal("Failed to execute transaction for "),
                Piece::Literal(description),
                Piece::Literal(": "),
                Piece::Text(response.debug),
            ],
            Violation::TransferFailed { digest, error } => seq![
                Piece::Literal("Failed to execute transfer transaction "),
                Piece::Shown(Shown::Transaction(digest)),
                Piece::Literal(": "),
                Piece::Text(error),
            ],
            Violation::TooFewTransactions { needed, got } => seq![
                Piece::Literal("Need at least "),
                Piece::Count(needed),
                Piece::Literal(" transactions, got "),
                Piece::Count(got),
            ],
            Violation::TooFewGasObjects { needed, got } => seq![
                Piece::Literal("Expect at least "),
                Piece::Count(needed),
                Piece::Literal(" txns, but only got "),
                Piece::Count(got),
                Piece::Literal(". Do we generate enough gas objects during genesis?"),
            ],
            Violation::TransactionNotFound { digest, failure } => seq![
                Piece::Literal("Failed get transaction "),
                Piece::Shown(Shown::Transaction(digest)),
                Piece::Literal(" from fullnode: "),
                Piece::Text(failure.debug),
            ],
            Violation::CheckpointBehind { grpc, json } => seq![
                Piece::Literal("gRPC latest ("),
                Piece::Number(grpc),
                Piece::Literal(") should be >= JSON-RPC latest ("),
                Piece::Number(json),
                Piece::Literal(")"),
            ],
            Violation::StakeNotFound { validator } => seq![
                Piece::Literal("Should find stake for validator "),
                Piece::Address(validator),
            ],
            Violation::ObjectMissing { object } => seq![
                Piece::Literal("Object "),
                Piece::Object(object),
                Piece::Literal(" does not exist"),
            ],
            Violation::WrongOwner { object, expected, actual } => seq![
                Piece::Literal("Object "),
                Piece::Object(object),
                Piece::Literal(" does not belong to "),
                Piece::Address(expected),
                Piece::Literal(", but to "),
                Piece::Owner(actual),
            ],
            Violation::NotGasCoin { object } => seq![
                Piece::Literal("Object "),
                Piece::Object(object),
                Piece::Literal(" is not a gas coin"),
            ],
            Violation::WrongBalanceOwner { expected, actual } => seq![
                Piece::Literal("A balance change of "),
                Piece::Owner(actual),
                Piece::Literal(" is not one of "),
                Piece::Address(expected),
            ],
            Violation::WrongCoinType => seq![
                Piece::Literal("A balance change is not in 0x2::sui::SUI"),
            ],
            Violation::UnexpectedReply => seq![
                Piece::Literal("A reply does not answer its request"),
            ],
        }
    }

    /// The message that the suite ends with, piece by piece.
    pub fn message(self) -> (r: Vec<Piece>)
        ensures
            r@ == self.pieces(),
    {
        match self {
            Violation::Unequal { message, left, right } => {
                let mut r: Vec<Piece> = Vec::new();
                if message.unicode_len() == 0 {
                    r.push(Piece::Literal("assertion `left == right` failed"));
                } else {
                    r.push(Piece::Literal("assertion `left == right` failed: "));
                    r.push(Piece::Literal(message));
                }
                r.push(Piece::Literal("\n  left: "));
                r.push(Piece::Shown(left));
                r.push(Piece::Literal("\n right: "));
                r.push(Piece::Shown(right));
                r
            },
            Violation::Assertion(message) => vec![
                Piece::Literal(message),
            ],
            Violation::NotSuccessful { message, error } => vec![
                Piece::Literal(message),
                Piece::Literal(": "),
                Piece::Text(error),
            ],
            Violation::WrongChangeCount { got } => vec![
                Piece::Literal("assertion `left == right` failed: Expect 2 balance changes emitted, but got "),
                Piece::Count(got),
                Piece::Literal("\n  left: "),
                Piece::Count(got),
                Piece::Literal("\n right: 2"),
            ],
            Violation::OwnerWithoutAddress { error } => vec![
                Piece::Literal("called `Result::unwrap()` on an `Err` value: "),
                Piece::Text(error),
            ],
            Violation::SupplyMismatch { json, grpc } => vec![
                Piece::Literal("assertion `left == right` failed: Total supply should match between JSON-RPC ("),
                Piece::Number(json),
                Piece::Literal(") and gRPC ("),
                Piece::Number(grpc),
                Piece::Literal(")\n  left: "),
                Piece::Number(json),
                Piece::Literal("\n right: "),
                Piece::Number(grpc),
            ],
            Violation::StakeCountMismatch { listed, delegated } => vec![
                Piece::Literal("assertion `left == right` failed: Individual stake count should match: JSON-RPC="),
                Piece::Count(listed),
                Piece::Literal(", gRPC="),
                Piece::Count(delegated),
                Piece::Literal("\n  left: "),
                Piece::Count(listed),
                Piece::Literal("\n right: "),
                Piece::Count(delegated),
            ],
            Violation::FaucetFailure { error } => vec![
                Piece::Literal("Failed to get coins from faucet: "),
                Piece::Text(error),
            ],
            Violation::TooFewCoins { minimum, address, got } => vec![
                Piece::Literal("Expect to get at least "),
                Piece::Count(minimum),
                Piece::Literal(" Sui Coins for address "),
                Piece::Address(address),
                Piece::Literal(", but only got "),
                Piece::Count(got),
            ],
            Violation::SyncTimeout { digests, timeout_sec } => vec![
                Piece::Literal("Fullnode does not know all of "),
                Piece::Transactions(digests),
                Piece::Literal(" after "),
                Piece::Number(timeout_sec),
                Piece::Literal(" secs."),
            ],
            Violation::SubmissionFailed { description, failure } => vec![
                Piece::Literal("Failed to execute transaction for "),
                Piece::Literal(description),
                Piece::Literal(". "),
                Piece::Text(failure.plain),
            ],
            Violation::ExecutionFailed { description, response } => vec![
                Piece::Literal("Failed to execute transaction for "),
                Piece::Literal(description),
                Piece::Literal(": "),
                Piece::Text(response.debug),
            ],
            Violation::TransferFailed { digest, error } => vec![
                Piece::Literal("Failed to execute transfer transaction "),
                Piece::Shown(Shown::Transaction(digest)),
                Piece::Literal(": "),
                Piece::Text(error),
            ],
            Violation::TooFewTransactions { needed, got } => vec![
                Piece::Literal("Need at least "),
                Piece::Count(needed),
                Piece::Literal(" transactions, got "),
                Piece::Count(got),
            ],
            Violation::TooFewGasObjects { needed, got } => vec![
                Piece::Literal("Expect at least "),
                Piece::Count(needed),
                Piece::Literal(" txns, but only got "),
                Piece::Count(got),
                Piece::Literal(". Do we generate enough gas objects during genesis?"),
            ],
            Violation::TransactionNotFound { digest, failure } => vec![
                Piece::Literal("Failed get transaction "),
                Piece::Shown(Shown::Transaction(digest)),
                Piece::Literal(" from fullnode: "),
                Piece::Text(failure.debug),
            ],
            Violation::CheckpointBehind { grpc, json } => vec![
                Piece::Literal("gRPC latest ("),
                Piece::Number(grpc),
                Piece::Literal(") should be >= JSON-RPC latest ("),
                Piece::Number(json),
                Piece::Literal(")"),
            ],
            Violation::StakeNotFound { validator } => vec![
                Piece::Literal("Should find stake for validator "),
                Piece::Address(validator),
            ],
            Violation::ObjectMissing { object } => vec![
                Piece::Literal("Object "),
                Piece::Object(object),
                Piece::Literal(" does not exist"),
            ],
            Violation::WrongOwner { object, expected, actual } => vec![
                Piece::Literal("Object "),
                Piece::Object(object),
                Piece::Literal(" does not belong to "),
                Piece::Address(expected),
                Piece::Literal(", but to "),
                Piece::Owner(actual),
            ],
            Violation::NotGasCoin { object } => vec![
                Piece::Literal("Object "),
                Piece::Object(object),
                Piece::Literal(" is not a gas coin"),
            ],
            Violation::WrongBalanceOwner { expected, actual } => vec![
                Piece::Literal("A balance change of "),
                Piece::Owner(actual),
                Piece::Literal(" is not one of "),
                Piece::Address(expected),
            ],
            Violation::WrongCoinType => vec![
                Piece::Literal("A balance change is not in 0x2::sui::SUI"),
            ],
            Violation::UnexpectedReply => vec![
                Piece::Literal("A reply does not answer its request"),
            ],
        }
    }
}

/// The words of every message, and the values that stand between them.
pub proof fn messages_read_in_full(violation: Violation)
    ensures
        violation matches Violation::Unequal { message, left, right } && message@.len() == 0
            ==> violation.pieces() == seq![
            Piece::Literal("assertion `left == right` failed"),
            Piece::Literal("\n  left: "),
            Piece::Shown(violation->left),
            Piece::Literal("\n right: "),
            Piece::Shown(violation->right),
        ],
        violation matches Violation::Unequal { message, left, right } && message@.len() > 0
            ==> violation.pieces() == seq![
            Piece::Literal("assertion `left == right` failed: "),
            Piece::Literal(violation->Unequal_message),
            Piece::Literal("\n  left: "),
            Piece::Shown(violation->left),
            Piece::Literal("\n right: "),
            Piece::Shown(violation->right),
        ],
        violation matches Violation::Assertion(message) ==> violation.pieces() == seq![
            Piece::Literal(message),
        ],
        violation matches Violation::NotSuccessful { message, error }
            ==> violation.pieces() == seq![
            Piece::Literal(message),
            Piece::Literal(": "),
            Piece::Text(error),
        ],
        violation matches Violation::WrongChangeCount { got } ==> violation.pieces() == seq![
            Piece::Literal("assertion `left == right` failed: Expect 2 balance changes emitted, but got "),
            Piece::Count(got),
            Piece::Literal("\n  left: "),
            Piece::Count(got),
            Piece::Literal("\n right: 2"),
        ],
        violation matches Violation::OwnerWithoutAddress { error } ==> violation.pieces() == seq![
            Piece::Literal("called `Result::unwrap()` on an `Err` value: "),
            Piece::Text(error),
        ],
        violation matches Violation::SupplyMismatch { json, grpc } ==> violation.pieces() == seq![
            Piece::Literal("assertion `left == right` failed: Total supply should match between JSON-RPC ("),
            Piece::Number(json),
            Piece::Literal(") and gRPC ("),
            Piece::Number(grpc),
            Piece::Literal(")\n  left: "),
            Piece::Number(json),
            Piece::Literal("\n right: "),
            Piece::Number(grpc),
        ],
        violation matches Violation::StakeCountMismatch { listed, delegated }
            ==> violation.pieces() == seq![
            Piece::Literal("assertion `left == right` failed: Individual stake count should match: JSON-RPC="),
            Piece::Count(listed),
            Piece::Literal(", gRPC="),
            Piece::Count(delegated),
            Piece::Literal("\n  left: "),
            Piece::Count(listed),
            Piece::Literal("\n right: "),
            Piece::Count(delegated),
        ],
        violation matches Violation::FaucetFailure { error } ==> violation.pieces() == seq![
            Piece::Literal("Failed to get coins from faucet: "),
            Piece::Text(error),
        ],
        violation matches Violation::TooFewCoins { minimum, address, got }
            ==> violation.pieces() == seq![
            Piece::Literal("Expect to get at least "),
            Piece::Count(minimum),
            Piece::Literal(" Sui Coins for address "),
            Piece::Address(address),
            Piece::Literal(", but only got "),
            Piece::Count(got),
        ],
        violation matches Violation::SyncTimeout { digests, timeout_sec }
            ==> violation.pieces() == seq![
            Piece::Literal("Fullnode does not know all of "),
            Piece::Transactions(digests),
            Piece::Literal(" after "),
            Piece::Number(timeout_sec),
            Piece::Literal(" secs."),
        ],
        violation matches Violation::SubmissionFailed { description, failure }
            ==> violation.pieces() == seq![
            Piece::Literal("Failed to execute transaction for "),
            Piece::Literal(description),
            Piece::Literal(". "),
            Piece::Text(failure.plain),
        ],
        violation matches Violation::ExecutionFailed { description, response }
            ==> violation.pieces() == seq![
            Piece::Literal("Failed to execute transaction for "),
            Piece::Literal(description),
            Piece::Literal(": "),
            Piece::Text(response.debug),
        ],
        violation matches Violation::TransferFailed { digest, error }
            ==> violation.pieces() == seq![
            Piece::Literal("Failed to execute transfer transaction "),
            Piece::Shown(Shown::Transaction(digest)),
            Piece::Literal(": "),
            Piece::Text(error),
        ],
        violation matches Violation::TooFewTransactions { needed, got }
            ==> violation.pieces() == seq![
            Piece::Literal("Need at least "),
            Piece::Count(needed),
            Piece::Literal(" transactions, got "),
            Piece::Count(got),
        ],
        violation matches Violation::TooFewGasObjects { needed, got }
            ==> violation.pieces() == seq![
            Piece::Literal("Expect at least "),
            Piece::Count(needed),
            Piece::Literal(" txns, but only got "),
            Piece::Count(got),
            Piece::Literal(". Do we generate enough gas objects during genesis?"),
        ],
        violation matches Violation::TransactionNotFound { digest, failure }
            ==> violation.pieces() == seq![
            Piece::Literal("Failed get transaction "),
            Piece::Shown(Shown::Transaction(digest)),
            Piece::Literal(" from fullnode: "),
            Piece::Text(failure.debug),
        ],
        violation matches Violation::CheckpointBehind { grpc, json } ==> violation.pieces() == seq![
            Piece::Literal("gRPC latest ("),
            Piece::Number(grpc),
            Piece::Literal(") should be >= JSON-RPC latest ("),
            Piece::Number(json),
            Piece::Literal(")"),
        ],
        violation matches Violation::StakeNotFound { validator } ==> violation.pieces() == seq![
            Piece::Literal("Should find stake for validator "),
            Piece::Address(validator),
        ],
        violation matches Violation::ObjectMissing { object } ==> violation.pieces() == seq![
            Piece::Literal("Object "),
            Piece::Object(object),
            Piece::Literal(" does not exist"),
        ],
        violation matches Violation::WrongOwner { object, expected, actual }
            ==> violation.pieces() == seq![
            Piece::Literal("Object "),
            Piece::Object(object),
            Piece::Literal(" does not belong to "),
            Piece::Address(expected),
            Piece::Literal(", but to "),
            Piece::Owner(actual),
        ],
        violation matches Violation::NotGasCoin { object } ==> violation.pieces() == seq![
            Piece::Literal("Object "),
            Piece::Object(object),
            Piece::Literal(" is not a gas coin"),
        ],
        violation matches Violation::WrongBalanceOwner { expected, actual }
            ==> violation.pieces() == seq![
            Piece::Literal("A balance change of "),
            Piece::Owner(actual),
            Piece::Literal(" is not one of "),
            Piece::Address(expected),
        ],
        violation is WrongCoinType ==> violation.pieces() == seq![
            Piece::Literal("A balance change is not in 0x2::sui::SUI"),
        ],
        violation is UnexpectedReply ==> violation.pieces() == seq![
            Piece::Literal("A reply does not answer its request"),
        ],
{
}

} // verus!
