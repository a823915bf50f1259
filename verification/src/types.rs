//! Plain values that cross the boundary between the ledger and its host.
use vstd::prelude::*;

verus! {

/// An amount of the currency the faucet dispenses, in its smallest unit.
pub type Amount = u128;

/// A point in time, in whole seconds since the Unix epoch.
pub type Timestamp = i64;

/// Seconds that must lie between two withdrawals of one account.
pub const COOLDOWN: Timestamp = 1800;

/// The amount a faucet dispenses when its deployer names none.
pub const DEFAULT_WITHDRAWAL_LIMIT: Amount = 100_000_000_000_000_000;

/// A 256-bit account identifier, split into its high and low 128 bits.
#[derive(Clone, Copy, Debug, PartialEq, Eq, Structural)]
pub struct Identity {
    pub hi: u128,
    pub lo: u128,
}

/// The faucet's own account, as the host reports it at the time of a call.
#[derive(Clone, Copy, Debug, PartialEq, Eq, Structural)]
pub struct Vault {
    /// The account's address.
    pub address: Identity,
    /// Its balance before the call takes effect.
    pub balance: Amount,
}

/// One movement of value into or out of the faucet.
#[derive(Clone, Copy, Debug, PartialEq, Eq, Structural)]
pub struct Transaction {
    pub from: Identity,
    pub to: Identity,
    pub amount: Amount,
    pub timestamp: Timestamp,
}

/// Emitted when the faucet pays out. It also tells the host which transfer
/// to make: `amount` from the faucet's account to `to`.
#[derive(Clone, Copy, Debug, PartialEq, Eq, Structural)]
pub struct Withdrawal {
    pub to: Identity,
    pub amount: Amount,
}

/// Emitted when the faucet accepts a deposit.
#[derive(Clone, Copy, Debug, PartialEq, Eq, Structural)]
pub struct Deposit {
    pub from: Identity,
    pub amount: Amount,
}

/// The last instruction of a faucet: pay `amount`, all that is left, to
/// `beneficiary` and remove the faucet's account.
#[derive(Clone, Copy, Debug, PartialEq, Eq, Structural)]
pub struct Termination {
    pub beneficiary: Identity,
    pub amount: Amount,
}

/// Why a call was refused. A refused call changes nothing.
#[derive(Clone, Copy, Debug, PartialEq, Eq, Structural)]
pub enum FaucetError {
    /// The emergency stop is active.
    WithdrawalsDisabled,
    /// The faucet holds less than one withdrawal.
    InsufficientFunds,
    /// The caller's last withdrawal is less than `COOLDOWN` seconds old.
    CooldownNotElapsed,
    /// The deposit would lift the balance above the ceiling.
    MaxBalanceExceeded,
    /// The caller is not the owner.
    Unauthorized,
    /// The host could not move the money.
    TransferFailed,
}

} // verus!
