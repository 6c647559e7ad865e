//! Command-line tools for Ethereum developers: random addresses and bytes, block and
//! transaction queries, and sending a transaction through a node's unlocked account.
//! The modules here hold the verified logic; talking to the node is left to the caller.

pub mod address;
pub mod command;
pub mod decimal;
pub mod error;
pub mod hex_text;
pub mod network;
pub mod random;
pub mod text;
