//! A rate-limited faucet ledger.
//!
//! The ledger hands a configurable amount to any caller, at most once per
//! cooldown period and account. Its owner may change the amount, cap the
//! balance the faucet accepts, halt withdrawals, hand the faucet over and
//! close it. The host that runs the ledger supplies the caller, the clock and
//! the faucet's account with the calls that need them, and moves the money.
pub mod faucet;
pub mod laws;
pub mod model;
pub mod types;

pub use crate::faucet::Faucet;
pub use crate::model::{Call, LedgerState};
pub use crate::types::{
    Amount, Deposit, FaucetError, Identity, Termination, Timestamp, Transaction, Vault,
    Withdrawal, COOLDOWN, DEFAULT_WITHDRAWAL_LIMIT,
};
