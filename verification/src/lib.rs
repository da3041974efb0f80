//! A verified transaction engine: per-client ledgers that apply deposits,
//! withdrawals and the dispute lifecycle (dispute, resolve, chargeback) under
//! exact decimal arithmetic, and an engine that routes an ordered stream of
//! transactions to those ledgers and snapshots every account at the end.
//!
//! The correctness-sensitive rules live here with machine-checked contracts:
//! balance arithmetic (`total = available + held`, exactly), transaction-id
//! uniqueness, the entry state machine, and the permanent lock a chargeback
//! leaves behind. Reading and writing the external record format stay outside;
//! they talk to this crate through plain typed values.

pub mod account;
pub mod amount;
pub mod engine;
pub mod parse;
pub mod report;
mod result;
pub mod text;
pub mod transaction;

pub use result::TxError;
pub use result::TxResult;
