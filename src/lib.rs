//! Building, fee sizing and signing of legacy pay-to-pubkey-hash Bitcoin
//! transactions, with the wire format, input selection, change handling and
//! the fee fixed point stated and proved; and the plain data types of the
//! RPC and ledger interfaces the wallet talks to.

pub mod address;
pub mod config;
pub mod decoding;
pub mod derivation;
pub mod encoding;
pub mod error;
pub mod fee;
pub mod selection;
pub mod signing;
pub mod transaction;

pub mod evm_rpc;
pub mod icp_index;
pub mod repo;
pub mod sol_rpc;
