//! A suite of test cases against a Sui cluster: what each case asks of the
//! cluster, what it makes of the replies, and the report on all of them.
pub mod case;
pub mod context;
pub mod elapsed;
pub mod faucet;
pub mod helper;
pub mod json;
pub mod object_basics;
pub mod protocol;
pub mod remote;
pub mod sync;
pub mod test_case;
pub mod text;
pub mod upgrade;
pub mod values;
pub mod violation;
