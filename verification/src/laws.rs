//! What holds of every faucet, proved from the state machine.
use crate::model::{Call, LedgerState};
use crate::types::{
    Amount, Deposit, FaucetError, Identity, Termination, Timestamp, Transaction, Vault,
    Withdrawal, COOLDOWN,
};
use vstd::prelude::*;

verus! {

/// A caller who has withdrawn cannot withdraw again before the cooldown is
/// over: a second withdrawal less than `COOLDOWN` seconds after the first is
/// refused with `CooldownNotElapsed` and changes nothing, whether or not the
/// host would move the money. The faucet must hold enough for the second
/// withdrawal, or else the funds guard speaks first.
pub proof fn withdrawal_within_cooldown_is_refused(
    s: LedgerState,
    caller: Identity,
    first_vault: Vault,
    first: Timestamp,
    second_vault: Vault,
    second: Timestamp,
    moved: bool,
)
    requires
        s.withdraw_outcome(caller, first_vault, first, true) is Ok,
        second < first + COOLDOWN,
        second_vault.balance >= s.withdrawal_limit,
    ensures
        s.withdraw_next(caller, first_vault, first, true).withdraw_outcome(
            caller,
            second_vault,
            second,
            moved,
        ) == Err::<Withdrawal, FaucetError>(FaucetError::CooldownNotElapsed),
        s.withdraw_next(caller, first_vault, first, true).withdraw_next(
            caller,
            second_vault,
            second,
            moved,
        ) == s.withdraw_next(caller, first_vault, first, true),
{
}

/// A caller who has withdrawn can withdraw again once the cooldown is over:
/// a second withdrawal `COOLDOWN` seconds or more after the first pays out,
/// provided the faucet holds enough and the host moves the money.
pub proof fn withdrawal_after_cooldown_succeeds(
    s: LedgerState,
    caller: Identity,
    first_vault: Vault,
    first: Timestamp,
    second_vault: Vault,
    second: Timestamp,
)
    requires
        s.withdraw_outcome(caller, first_vault, first, true) is Ok,
        second >= first + COOLDOWN,
        second_vault.balance >= s.withdrawal_limit,
    ensures
        s.withdraw_next(caller, first_vault, first, true).withdraw_outcome(
            caller,
            second_vault,
            second,
            true,
        ) == Ok::<Withdrawal, FaucetError>(
            Withdrawal { to: caller, amount: s.withdrawal_limit },
        ),
{
}

/// Two toggles of the emergency stop by the owner leave the faucet as it
/// was.
pub proof fn toggling_twice_restores(s: LedgerState)
    ensures
        s.toggle_emergency_stop_next(s.owner).toggle_emergency_stop_next(s.owner) == s,
{
}

/// Whoever is not the owner can neither configure the faucet nor close it:
/// each such call fails with `Unauthorized` and changes nothing.
pub proof fn stranger_changes_no_setting(s: LedgerState, caller: Identity, vault: Vault, call: Call)
    requires
        caller != s.owner,
        !(call is Withdraw),
        !(call is Deposit),
    ensures
        s.owner_only(caller) == Err::<(), FaucetError>(FaucetError::Unauthorized),
        s.destroy_outcome(caller, vault) == Err::<Termination, FaucetError>(
            FaucetError::Unauthorized,
        ),
        s.step(caller, call) == s,
{
}

/// A call that is refused changes nothing, whatever the call and the error.
pub proof fn refused_call_changes_nothing(s: LedgerState, caller: Identity, call: Call)
    requires
        s.refusal(caller, call) is Some,
    ensures
        s.step(caller, call) == s,
{
}

/// An account that has never withdrawn has nothing to wait for.
pub proof fn no_wait_before_first_withdrawal(s: LedgerState, account: Identity, now: Timestamp)
    requires
        !s.timeouts.contains_key(account),
    ensures
        s.time_until_next_withdrawal(account, now) == 0,
{
}

/// At the instant of its withdrawal, the caller has the whole cooldown to
/// wait.
pub proof fn full_wait_right_after_withdrawal(
    s: LedgerState,
    caller: Identity,
    vault: Vault,
    now: Timestamp,
)
    requires
        s.withdraw_outcome(caller, vault, now, true) is Ok,
    ensures
        s.withdraw_next(caller, vault, now, true).time_until_next_withdrawal(caller, now)
            == COOLDOWN,
{
}

/// The time to wait is never negative, and it is zero exactly when the
/// account has never withdrawn or its cooldown is over.
pub proof fn wait_is_never_negative(s: LedgerState, account: Identity, now: Timestamp)
    ensures
        s.time_until_next_withdrawal(account, now) >= 0,
        s.time_until_next_withdrawal(account, now) == 0 <==> (!s.timeouts.contains_key(account)
            || now >= s.timeouts[account] + COOLDOWN),
{
}

/// The wait and the cooldown guard agree: an account that has withdrawn
/// before has no time left to wait exactly when a withdrawal of its own, from
/// a running faucet with enough funds, gets past the guards.
pub proof fn wait_is_over_when_the_guards_pass(
    s: LedgerState,
    account: Identity,
    vault: Vault,
    now: Timestamp,
)
    requires
        s.timeouts.contains_key(account),
        !s.emergency_stop,
        vault.balance >= s.withdrawal_limit,
    ensures
        s.time_until_next_withdrawal(account, now) == 0 <==> s.withdraw_refusal(
            account,
            vault,
            now,
        ) is None,
{
}

/// A deposit that would lift the balance above the ceiling fails with
/// `MaxBalanceExceeded` and leaves the faucet, its log included, as it was.
pub proof fn deposit_above_ceiling_is_refused(
    s: LedgerState,
    caller: Identity,
    vault: Vault,
    amount: Amount,
    now: Timestamp,
    ceiling: Amount,
)
    requires
        s.max_balance == Some(ceiling),
        vault.balance + amount > ceiling,
    ensures
        s.deposit_outcome(caller, vault, amount) == Err::<Deposit, FaucetError>(
            FaucetError::MaxBalanceExceeded,
        ),
        s.deposit_next(caller, vault, amount, now) == s,
{
}

/// A deposit that lifts the balance to the ceiling and no further is
/// accepted, and so is every deposit into a faucet without a ceiling.
pub proof fn deposit_up_to_ceiling_is_accepted(
    s: LedgerState,
    caller: Identity,
    vault: Vault,
    amount: Amount,
    now: Timestamp,
)
    requires
        match s.max_balance {
            Some(ceiling) => vault.balance + amount <= ceiling,
            None => true,
        },
    ensures
        s.deposit_outcome(caller, vault, amount) == Ok::<Deposit, FaucetError>(
            Deposit { from: caller, amount },
        ),
        s.deposit_next(caller, vault, amount, now).transactions == s.recorded(
            Transaction { from: caller, to: vault.address, amount, timestamp: now },
        ),
{
}

/// While the emergency stop is active no withdrawal goes through, whatever
/// the balance, the clock and the caller.
pub proof fn emergency_stop_forbids_withdrawals(
    s: LedgerState,
    caller: Identity,
    vault: Vault,
    now: Timestamp,
    moved: bool,
)
    requires
        s.emergency_stop,
    ensures
        s.withdraw_outcome(caller, vault, now, moved) == Err::<Withdrawal, FaucetError>(
            FaucetError::WithdrawalsDisabled,
        ),
        s.withdraw_next(caller, vault, now, moved) == s,
{
}

/// No call moves the time of an account's last withdrawal backwards, and no
/// call makes the faucet forget that an account has withdrawn.
pub proof fn last_withdrawal_never_decreases(
    s: LedgerState,
    caller: Identity,
    call: Call,
    who: Identity,
)
    requires
        s.timeouts.contains_key(who),
    ensures
        s.step(caller, call).timeouts.contains_key(who),
        s.step(caller, call).timeouts[who] >= s.timeouts[who],
{
}

/// A withdrawal that pays out starts the caller's cooldown at the time of
/// the call, leaves every other account's cooldown alone, and adds one entry
/// to the log if one is kept and none if not. Nothing else changes.
pub proof fn withdrawal_touches_one_account(
    s: LedgerState,
    caller: Identity,
    vault: Vault,
    now: Timestamp,
    other: Identity,
)
    requires
        s.withdraw_outcome(caller, vault, now, true) is Ok,
        other != caller,
    ensures
        s.withdraw_next(caller, vault, now, true).timeouts[caller] == now,
        s.withdraw_next(caller, vault, now, true).timeouts.contains_key(other)
            == s.timeouts.contains_key(other),
        s.withdraw_next(caller, vault, now, true).timeouts[other] == s.timeouts[other],
        s.withdraw_next(caller, vault, now, true).transactions.len() == s.transactions.len()
            + if s.logging {
            1int
        } else {
            0int
        },
        s.withdraw_next(caller, vault, now, true) == (LedgerState {
            timeouts: s.withdraw_next(caller, vault, now, true).timeouts,
            transactions: s.withdraw_next(caller, vault, now, true).transactions,
            ..s
        }),
{
}

/// The owner changes only when the owner hands the faucet over.
pub proof fn owner_changes_only_by_transfer(s: LedgerState, caller: Identity, call: Call)
    ensures
        s.step(caller, call).owner != s.owner ==> caller == s.owner && call
            == (Call::TransferOwnership { new_owner: s.step(caller, call).owner }),
{
}

/// The cooldown holds whatever happens in between: while less than
/// `COOLDOWN` seconds have passed since an account's withdrawal on record, no
/// sequence of calls, by whomever, brings the account another withdrawal.
pub proof fn cooldown_outlasts_every_trace(
    s: LedgerState,
    trace: Seq<(Identity, Call)>,
    account: Identity,
    vault: Vault,
    now: Timestamp,
    moved: bool,
)
    requires
        s.timeouts.contains_key(account),
        now < s.timeouts[account] + COOLDOWN,
    ensures
        s.run(trace).timeouts.contains_key(account),
        s.run(trace).timeouts[account] >= s.timeouts[account],
        s.run(trace).withdraw_outcome(account, vault, now, moved) is Err,
        s.run(trace).withdraw_next(account, vault, now, moved) == s.run(trace),
    decreases trace.len(),
{
    if trace.len() > 0 {
        let before = s.run(trace.drop_last());
        cooldown_outlasts_every_trace(s, trace.drop_last(), account, vault, now, moved);
        last_withdrawal_never_decreases(before, trace.last().0, trace.last().1, account);
    }
}

/// Two withdrawals of one account that pay out lie at least `COOLDOWN`
/// seconds apart, whatever calls lie between them.
pub proof fn withdrawals_lie_a_cooldown_apart(
    s: LedgerState,
    account: Identity,
    first_vault: Vault,
    first: Timestamp,
    trace: Seq<(Identity, Call)>,
    second_vault: Vault,
    second: Timestamp,
)
    requires
        s.withdraw_outcome(account, first_vault, first, true) is Ok,
        s.withdraw_next(account, first_vault, first, true).run(trace).withdraw_outcome(
            account,
            second_vault,
            second,
            true,
        ) is Ok,
    ensures
        second >= first + COOLDOWN,
{
    if second < first + COOLDOWN {
        cooldown_outlasts_every_trace(
            s.withdraw_next(account, first_vault, first, true),
            trace,
            account,
            second_vault,
            second,
            true,
        );
    }
}

/// No call takes a faucet out of the well-timed states.
pub proof fn step_keeps_well_timed(s: LedgerState, caller: Identity, call: Call)
    requires
        s.well_timed(),
    ensures
        s.step(caller, call).well_timed(),
{
    let next = s.step(caller, call);
    assert forall|who: Identity| #[trigger] next.timeouts.contains_key(who) implies next.timeouts[who]
        >= COOLDOWN by {
        if s.timeouts.contains_key(who) {
            last_withdrawal_never_decreases(s, caller, call, who);
        }
    }
}

/// Every state a faucet can get into after its deployment is well timed: a
/// withdrawal on record is never older than the first moment at which
/// anybody could withdraw.
pub proof fn deployed_faucet_stays_well_timed(
    owner: Identity,
    withdrawal_limit: Amount,
    max_balance: Option<Amount>,
    logging: bool,
    trace: Seq<(Identity, Call)>,
)
    ensures
        LedgerState::deployed(owner, withdrawal_limit, max_balance, logging).run(
            trace,
        ).well_timed(),
    decreases trace.len(),
{
    let start = LedgerState::deployed(owner, withdrawal_limit, max_balance, logging);
    if trace.len() > 0 {
        deployed_faucet_stays_well_timed(
            owner,
            withdrawal_limit,
            max_balance,
            logging,
            trace.drop_last(),
        );
        step_keeps_well_timed(start.run(trace.drop_last()), trace.last().0, trace.last().1);
    }
}

/// In a well-timed state, a time of 0 for the last withdrawal means that the
/// account has never withdrawn, and nobody withdraws before the clock has
/// reached `COOLDOWN`.
pub proof fn no_withdrawal_before_the_first_cooldown(
    s: LedgerState,
    caller: Identity,
    vault: Vault,
    now: Timestamp,
    moved: bool,
)
    requires
        s.well_timed(),
    ensures
        s.last_withdrawal(caller) == 0 <==> !s.timeouts.contains_key(caller),
        s.withdraw_outcome(caller, vault, now, moved) is Ok ==> now >= COOLDOWN,
{
}

} // verus!
