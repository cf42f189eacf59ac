//! The test cases.
pub mod fullnode_execute_transaction_test;
