//! The ledger as a state machine over mathematical values.
//!
//! Every operation of the faucet is described here twice over: by its
//! outcome, the value the call returns, and by the state it leaves behind.
//! A refused call leaves the state as it found it.
use crate::types::{
    Amount, Deposit, FaucetError, Identity, Termination, Timestamp, Transaction, Vault,
    Withdrawal, COOLDOWN,
};
use vstd::prelude::*;

verus! {

/// What a faucet holds between calls.
#[verifier::ext_equal]
pub struct LedgerState {
    /// The account that may configure and close the faucet.
    pub owner: Identity,
    /// The amount one withdrawal pays out.
    pub withdrawal_limit: Amount,
    /// The balance above which deposits are refused, if there is a ceiling.
    pub max_balance: Option<Amount>,
    /// While set, nobody can withdraw.
    pub emergency_stop: bool,
    /// For each account that has withdrawn, the time of its last withdrawal.
    pub timeouts: Map<Identity, Timestamp>,
    /// Whether withdrawals and deposits are entered in `transactions`.
    pub logging: bool,
    /// The withdrawals and deposits so far, oldest first.
    pub transactions: Seq<Transaction>,
}

/// A call that can change a faucet, with its arguments and with what the
/// host reports at the time.
pub enum Call {
    /// A withdrawal; `moved` tells whether the host carried out the transfer.
    Withdraw { vault: Vault, now: Timestamp, moved: bool },
    Deposit { vault: Vault, amount: Amount, now: Timestamp },
    SetWithdrawalLimit { new_limit: Amount },
    SetMaxBalance { new_max_balance: Option<Amount> },
    ToggleEmergencyStop,
    TransferOwnership { new_owner: Identity },
}

impl LedgerState {
    /// A faucet right after deployment: running, with nothing paid out yet.
    pub open spec fn deployed(
        owner: Identity,
        withdrawal_limit: Amount,
        max_balance: Option<Amount>,
        logging: bool,
    ) -> Self {
        LedgerState {
            owner,
            withdrawal_limit,
            max_balance,
            emergency_stop: false,
            timeouts: Map::empty(),
            logging,
            transactions: Seq::empty(),
        }
    }

    /// What an owner-only call returns.
    pub open spec fn owner_only(self, caller: Identity) -> Result<(), FaucetError> {
        if caller == self.owner {
            Ok(())
        } else {
            Err(FaucetError::Unauthorized)
        }
    }

    /// The log after `entry` has been offered to it.
    pub open spec fn recorded(self, entry: Transaction) -> Seq<Transaction> {
        if self.logging {
            self.transactions.push(entry)
        } else {
            self.transactions
        }
    }

    /// The time of `who`'s last withdrawal, and 0 for an account that has
    /// never withdrawn.
    pub open spec fn last_withdrawal(self, who: Identity) -> int {
        if self.timeouts.contains_key(who) {
            self.timeouts[who] as int
        } else {
            0
        }
    }

    /// The first guard that turns a withdrawal down, if one does: the
    /// emergency stop, then the faucet's funds, then the caller's cooldown.
    pub open spec fn withdraw_refusal(self, caller: Identity, vault: Vault, now: Timestamp) -> Option<
        FaucetError,
    > {
        if self.emergency_stop {
            Some(FaucetError::WithdrawalsDisabled)
        } else if vault.balance < self.withdrawal_limit {
            Some(FaucetError::InsufficientFunds)
        } else if self.last_withdrawal(caller) > now - COOLDOWN {
            Some(FaucetError::CooldownNotElapsed)
        } else {
            None
        }
    }

    /// The transfer a withdrawal asks of the host.
    pub open spec fn withdrawal_order(self, caller: Identity) -> Withdrawal {
        Withdrawal { to: caller, amount: self.withdrawal_limit }
    }

    /// What a withdrawal returns, where `moved` tells whether the host
    /// carried out the transfer. The host is asked only once every guard has
    /// passed.
    pub open spec fn withdraw_outcome(
        self,
        caller: Identity,
        vault: Vault,
        now: Timestamp,
        moved: bool,
    ) -> Result<Withdrawal, FaucetError> {
        match self.withdraw_refusal(caller, vault, now) {
            Some(refusal) => Err(refusal),
            None => if moved {
                Ok(self.withdrawal_order(caller))
            } else {
                Err(FaucetError::TransferFailed)
            },
        }
    }

    /// The state a withdrawal leaves behind.
    pub open spec fn withdraw_next(
        self,
        caller: Identity,
        vault: Vault,
        now: Timestamp,
        moved: bool,
    ) -> Self {
        if self.withdraw_outcome(caller, vault, now, moved) is Ok {
            LedgerState {
                timeouts: self.timeouts.insert(caller, now),
                transactions: self.recorded(
                    Transaction {
                        from: vault.address,
                        to: caller,
                        amount: self.withdrawal_limit,
                        timestamp: now,
                    },
                ),
                ..self
            }
        } else {
            self
        }
    }

    /// Whether a deposit of `amount` would lift the balance above the ceiling.
    pub open spec fn exceeds_ceiling(self, vault: Vault, amount: Amount) -> bool {
        match self.max_balance {
            Some(ceiling) => vault.balance + amount > ceiling,
            None => false,
        }
    }

    /// What a deposit returns.
    pub open spec fn deposit_outcome(self, caller: Identity, vault: Vault, amount: Amount) -> Result<
        Deposit,
        FaucetError,
    > {
        if self.exceeds_ceiling(vault, amount) {
            Err(FaucetError::MaxBalanceExceeded)
        } else {
            Ok(Deposit { from: caller, amount })
        }
    }

    /// The state a deposit leaves behind.
    pub open spec fn deposit_next(
        self,
        caller: Identity,
        vault: Vault,
        amount: Amount,
        now: Timestamp,
    ) -> Self {
        if self.exceeds_ceiling(vault, amount) {
            self
        } else {
            LedgerState {
                transactions: self.recorded(
                    Transaction { from: caller, to: vault.address, amount, timestamp: now },
                ),
                ..self
            }
        }
    }

    /// The state after a call to set the withdrawal limit.
    pub open spec fn set_withdrawal_limit_next(self, caller: Identity, new_limit: Amount) -> Self {
        if caller == self.owner {
            LedgerState { withdrawal_limit: new_limit, ..self }
        } else {
            self
        }
    }

    /// The state after a call to set or lift the balance ceiling.
    pub open spec fn set_max_balance_next(
        self,
        caller: Identity,
        new_max_balance: Option<Amount>,
    ) -> Self {
        if caller == self.owner {
            LedgerState { max_balance: new_max_balance, ..self }
        } else {
            self
        }
    }

    /// The state after a call to flip the emergency stop.
    pub open spec fn toggle_emergency_stop_next(self, caller: Identity) -> Self {
        if caller == self.owner {
            LedgerState { emergency_stop: !self.emergency_stop, ..self }
        } else {
            self
        }
    }

    /// The state after a call to hand the faucet to `new_owner`.
    pub open spec fn transfer_ownership_next(self, caller: Identity, new_owner: Identity) -> Self {
        if caller == self.owner {
            LedgerState { owner: new_owner, ..self }
        } else {
            self
        }
    }

    /// The state after any one call by `caller`.
    pub open spec fn step(self, caller: Identity, call: Call) -> Self {
        match call {
            Call::Withdraw { vault, now, moved } => self.withdraw_next(caller, vault, now, moved),
            Call::Deposit { vault, amount, now } => self.deposit_next(caller, vault, amount, now),
            Call::SetWithdrawalLimit { new_limit } => self.set_withdrawal_limit_next(
                caller,
                new_limit,
            ),
            Call::SetMaxBalance { new_max_balance } => self.set_max_balance_next(
                caller,
                new_max_balance,
            ),
            Call::ToggleEmergencyStop => self.toggle_emergency_stop_next(caller),
            Call::TransferOwnership { new_owner } => self.transfer_ownership_next(
                caller,
                new_owner,
            ),
        }
    }

    /// The state after the calls of `trace`, each paired with its caller, in
    /// their order.
    pub open spec fn run(self, trace: Seq<(Identity, Call)>) -> Self
        decreases trace.len(),
    {
        if trace.len() == 0 {
            self
        } else {
            self.run(trace.drop_last()).step(trace.last().0, trace.last().1)
        }
    }

    /// Whether every withdrawal on record was made at a time at which the
    /// cooldown guard lets a first withdrawal pass.
    pub open spec fn well_timed(self) -> bool {
        forall|who: Identity| #[trigger]
            self.timeouts.contains_key(who) ==> self.timeouts[who] >= COOLDOWN
    }

    /// The error of a call by `caller` that is refused, and `None` for a call
    /// that goes through.
    pub open spec fn refusal(self, caller: Identity, call: Call) -> Option<FaucetError> {
        match call {
            Call::Withdraw { vault, now, moved } => match self.withdraw_outcome(
                caller,
                vault,
                now,
                moved,
            ) {
                Ok(_) => None,
                Err(error) => Some(error),
            },
            Call::Deposit { vault, amount, now } => match self.deposit_outcome(
                caller,
                vault,
                amount,
            ) {
                Ok(_) => None,
                Err(error) => Some(error),
            },
            _ => match self.owner_only(caller) {
                Ok(_) => None,
                Err(error) => Some(error),
            },
        }
    }

    /// What a call to close the faucet returns: the whole balance goes to the
    /// owner.
    pub open spec fn destroy_outcome(self, caller: Identity, vault: Vault) -> Result<
        Termination,
        FaucetError,
    > {
        if caller == self.owner {
            Ok(Termination { beneficiary: self.owner, amount: vault.balance })
        } else {
            Err(FaucetError::Unauthorized)
        }
    }

    /// The seconds `account` has to wait at time `now` before it may
    /// withdraw again.
    pub open spec fn time_until_next_withdrawal(self, account: Identity, now: Timestamp) -> int {
        if !self.timeouts.contains_key(account) {
            0
        } else if now >= self.timeouts[account] + COOLDOWN {
            0
        } else {
            self.timeouts[account] + COOLDOWN - now
        }
    }
}

} // verus!
