//! The faucet itself: the state a host keeps, and the calls it serves.
use crate::model::LedgerState;
use crate::types::{
    Amount, Deposit, FaucetError, Identity, Termination, Timestamp, Transaction, Vault,
    Withdrawal, COOLDOWN,
};
use ink_prelude::collections::BTreeMap;
use vstd::prelude::*;

verus! {

/// A faucet. Its view is the [`LedgerState`] that the contracts speak of.
#[derive(Debug)]
pub struct Faucet {
    owner: Identity,
    withdrawal_limit: Amount,
    max_balance: Option<Amount>,
    emergency_stop: bool,
    /// Last withdrawals, filed under the two halves of the account's identity.
    timeouts: BTreeMap<(u128, u128), Timestamp>,
    logging: bool,
    transactions: Vec<Transaction>,
}

impl View for Faucet {
    type V = LedgerState;

    closed spec fn view(&self) -> LedgerState {
        LedgerState {
            owner: self.owner,
            withdrawal_limit: self.withdrawal_limit,
            max_balance: self.max_balance,
            emergency_stop: self.emergency_stop,
            timeouts: Map::new(
                |id: Identity| self.timeouts@.contains_key((id.hi, id.lo)),
                |id: Identity| self.timeouts@[(id.hi, id.lo)],
            ),
            logging: self.logging,
            transactions: self.transactions@,
        }
    }
}

impl Faucet {
    /// Deploys a faucet that belongs to `owner`. It pays out
    /// `withdrawal_limit` per withdrawal, refuses deposits that would lift
    /// its balance above `max_balance` if one is given, and keeps a log of
    /// its transactions if `logging` is set.
    pub fn new(
        owner: Identity,
        withdrawal_limit: Amount,
        max_balance: Option<Amount>,
        logging: bool,
    ) -> (faucet: Faucet)
        ensures
            faucet@ == LedgerState::deployed(owner, withdrawal_limit, max_balance, logging),
    {
        Faucet {
            owner,
            withdrawal_limit,
            max_balance,
            emergency_stop: false,
            timeouts: BTreeMap::new(),
            logging,
            transactions: Vec::new(),
        }
    }

    /// Runs the guards of a withdrawal, in their order, and returns the
    /// transfer to ask of the host if none of them objects.
    fn check_withdrawal(&self, caller: Identity, vault: Vault, now: Timestamp) -> (result: Result<
        Withdrawal,
        FaucetError,
    >)
        ensures
            result == match self@.withdraw_refusal(caller, vault, now) {
                Some(refusal) => Err::<Withdrawal, FaucetError>(refusal),
                None => Ok(self@.withdrawal_order(caller)),
            },
    {
        if self.emergency_stop {
            return Err(FaucetError::WithdrawalsDisabled);
        }
        if vault.balance < self.withdrawal_limit {
            return Err(FaucetError::InsufficientFunds);
        }
        let key: (u128, u128) = (caller.hi, caller.lo);
        let last: Timestamp = match self.timeouts.get(&key) {
            Some(at) => *at,
            None => 0,
        };
        let elapsed: bool = match now.checked_sub(COOLDOWN) {
            Some(earliest) => last <= earliest,
            None => false,
        };
        if !elapsed {
            return Err(FaucetError::CooldownNotElapsed);
        }
        Ok(Withdrawal { to: caller, amount: self.withdrawal_limit })
    }

    /// Pays the withdrawal limit to `caller`.
    ///
    /// `vault` is the faucet's account before the withdrawal and `now` the
    /// host's clock. The guards run first, and the first that objects decides
    /// the error: the emergency stop, the faucet's funds, the caller's
    /// cooldown. Then `transfer` is called, once, with the transfer to make;
    /// it tells whether the host made it. Only then is the withdrawal
    /// entered: the caller's cooldown starts at `now`, and the log, if kept,
    /// gains one entry. If the host did not move the money the call fails
    /// with `TransferFailed`. A failed call changes nothing.
    pub fn withdraw<F>(&mut self, caller: Identity, vault: Vault, now: Timestamp, transfer: F) -> (result:
        Result<Withdrawal, FaucetError>) where F: FnOnce(Withdrawal) -> bool
        requires
            old(self)@.withdraw_refusal(caller, vault, now) is None ==> call_requires(
                transfer,
                (old(self)@.withdrawal_order(caller),),
            ),
        ensures
            result == old(self)@.withdraw_outcome(caller, vault, now, result is Ok),
            final(self)@ == old(self)@.withdraw_next(caller, vault, now, result is Ok),
            old(self)@.withdraw_refusal(caller, vault, now) is None ==> call_ensures(
                transfer,
                (old(self)@.withdrawal_order(caller),),
                result is Ok,
            ),
    {
        let order = match self.check_withdrawal(caller, vault, now) {
            Ok(order) => order,
            Err(refusal) => {
                return Err(refusal);
            },
        };
        let moved: bool = transfer(order);
        if !moved {
            return Err(FaucetError::TransferFailed);
        }
        self.timeouts.insert((caller.hi, caller.lo), now);
        if self.logging {
            self.transactions.push(
                Transaction {
                    from: vault.address,
                    to: caller,
                    amount: self.withdrawal_limit,
                    timestamp: now,
                },
            );
        }
        Ok(order)
    }

    /// Accepts a deposit of `amount` from `caller`.
    ///
    /// `vault` is the faucet's account without the deposit. Where a ceiling
    /// is set and the deposit would lift the balance above it, the call fails
    /// with `MaxBalanceExceeded` and changes nothing; a deposit that reaches
    /// the ceiling exactly is accepted. An accepted deposit is entered in the
    /// log, if one is kept, under the time `now`.
    pub fn deposit(&mut self, caller: Identity, vault: Vault, amount: Amount, now: Timestamp) -> (result:
        Result<Deposit, FaucetError>)
        ensures
            result == old(self)@.deposit_outcome(caller, vault, amount),
            final(self)@ == old(self)@.deposit_next(caller, vault, amount, now),
    {
        let fits: bool = match self.max_balance {
            Some(ceiling) => match vault.balance.checked_add(amount) {
                Some(total) => total <= ceiling,
                None => false,
            },
            None => true,
        };
        if !fits {
            return Err(FaucetError::MaxBalanceExceeded);
        }
        if self.logging {
            self.transactions.push(
                Transaction { from: caller, to: vault.address, amount, timestamp: now },
            );
        }
        Ok(Deposit { from: caller, amount })
    }

    /// Sets the amount one withdrawal pays out. Only the owner may; any
    /// amount is taken, zero too.
    pub fn set_withdrawal_limit(&mut self, caller: Identity, new_limit: Amount) -> (result: Result<
        (),
        FaucetError,
    >)
        ensures
            result == old(self)@.owner_only(caller),
            final(self)@ == old(self)@.set_withdrawal_limit_next(caller, new_limit),
    {
        if caller != self.owner {
            return Err(FaucetError::Unauthorized);
        }
        self.withdrawal_limit = new_limit;
        Ok(())
    }

    /// Sets the balance above which deposits are refused, or lifts the
    /// ceiling with `None`. Only the owner may.
    pub fn set_max_balance(&mut self, caller: Identity, new_max_balance: Option<Amount>) -> (result:
        Result<(), FaucetError>)
        ensures
            result == old(self)@.owner_only(caller),
            final(self)@ == old(self)@.set_max_balance_next(caller, new_max_balance),
    {
        if caller != self.owner {
            return Err(FaucetError::Unauthorized);
        }
        self.max_balance = new_max_balance;
        Ok(())
    }

    /// Halts withdrawals if they are running, and resumes them if they are
    /// halted. Only the owner may.
    pub fn toggle_emergency_stop(&mut self, caller: Identity) -> (result: Result<(), FaucetError>)
        ensures
            result == old(self)@.owner_only(caller),
            final(self)@ == old(self)@.toggle_emergency_stop_next(caller),
    {
        if caller != self.owner {
            return Err(FaucetError::Unauthorized);
        }
        self.emergency_stop = !self.emergency_stop;
        Ok(())
    }

    /// Hands the faucet to `new_owner`. Only the owner may; any account is
    /// taken, the owner's own too.
    pub fn transfer_ownership(&mut self, caller: Identity, new_owner: Identity) -> (result: Result<
        (),
        FaucetError,
    >)
        ensures
            result == old(self)@.owner_only(caller),
            final(self)@ == old(self)@.transfer_ownership_next(caller, new_owner),
    {
        if caller != self.owner {
            return Err(FaucetError::Unauthorized);
        }
        self.owner = new_owner;
        Ok(())
    }

    /// Closes the faucet for good. Only the owner may.
    ///
    /// The faucet is used up by the call, so nothing can be asked of it
    /// afterwards. The owner gets the instruction to hand to the host: the
    /// whole balance of `vault` goes to the owner. Anyone else gets the
    /// faucet back, unchanged, with `Unauthorized`.
    pub fn destroy(self, caller: Identity, vault: Vault) -> (result: Result<
        Termination,
        (Faucet, FaucetError),
    >)
        ensures
            match result {
                Ok(termination) => self@.destroy_outcome(caller, vault) == Ok::<
                    Termination,
                    FaucetError,
                >(termination),
                Err((faucet, refusal)) => self@.destroy_outcome(caller, vault) == Err::<
                    Termination,
                    FaucetError,
                >(refusal) && faucet@ == self@,
            },
    {
        if caller != self.owner {
            return Err((self, FaucetError::Unauthorized));
        }
        Ok(Termination { beneficiary: self.owner, amount: vault.balance })
    }

    /// The faucet's balance, as the host reports it.
    pub fn get_balance(&self, vault: Vault) -> (balance: Amount)
        ensures
            balance == vault.balance,
    {
        vault.balance
    }

    /// The seconds `account` has to wait at time `now` before it may withdraw
    /// again: none if it has never withdrawn or its cooldown is over, else
    /// what is left of the cooldown.
    pub fn get_time_until_next_withdrawal(&self, account: Identity, now: Timestamp) -> (wait: u128)
        ensures
            wait == self@.time_until_next_withdrawal(account, now),
    {
        let key: (u128, u128) = (account.hi, account.lo);
        match self.timeouts.get(&key) {
            Some(at) => {
                let ready: i128 = *at as i128 + COOLDOWN as i128;
                if now as i128 >= ready {
                    0
                } else {
                    (ready - now as i128) as u128
                }
            },
            None => 0,
        }
    }

    /// The log of withdrawals and deposits, oldest first. It is empty where
    /// none is kept.
    pub fn get_transactions(&self) -> (log: Vec<Transaction>)
        ensures
            log@ == self@.transactions,
    {
        self.transactions.clone()
    }

    /// The account that may configure and close the faucet.
    pub fn owner(&self) -> (owner: Identity)
        ensures
            owner == self@.owner,
    {
        self.owner
    }

    /// The amount one withdrawal pays out.
    pub fn withdrawal_limit(&self) -> (limit: Amount)
        ensures
            limit == self@.withdrawal_limit,
    {
        self.withdrawal_limit
    }

    /// The balance above which deposits are refused, if there is a ceiling.
    pub fn max_balance(&self) -> (ceiling: Option<Amount>)
        ensures
            ceiling == self@.max_balance,
    {
        self.max_balance
    }

    /// Whether withdrawals are halted.
    pub fn emergency_stop(&self) -> (stopped: bool)
        ensures
            stopped == self@.emergency_stop,
    {
        self.emergency_stop
    }

    /// Whether the faucet keeps a log of its transactions.
    pub fn logging(&self) -> (kept: bool)
        ensures
            kept == self@.logging,
    {
        self.logging
    }

    /// When `account` last withdrew, if it ever did.
    pub fn last_withdrawal(&self, account: Identity) -> (at: Option<Timestamp>)
        ensures
            at == if self@.timeouts.contains_key(account) {
                Some(self@.timeouts[account])
            } else {
                None
            },
    {
        let key: (u128, u128) = (account.hi, account.lo);
        match self.timeouts.get(&key) {
            Some(at) => Some(*at),
            None => None,
        }
    }
}

} // verus!
