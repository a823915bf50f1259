use faucet::{Deposit, Faucet, FaucetError, Identity, Transaction, Vault};

const OWNER: Identity = Identity { hi: 0, lo: 1 };
const DONOR: Identity = Identity { hi: 3, lo: 4 };
const FAUCET: Identity = Identity { hi: 0xfa, lo: 0 };
const NOW: i64 = 1_700_000_000;

fn vault(balance: u128) -> Vault {
    Vault { address: FAUCET, balance }
}

fn deploy(max_balance: Option<u128>) -> Faucet {
    Faucet::new(OWNER, 100, max_balance, true)
}

#[test]
fn deposit_above_the_ceiling_is_refused_and_changes_nothing() {
    let mut faucet = deploy(Some(1_000));
    assert_eq!(faucet.deposit(DONOR, vault(400), 200, NOW), Ok(Deposit { from: DONOR, amount: 200 }));
    let before = faucet.get_transactions();

    assert_eq!(faucet.deposit(DONOR, vault(600), 401, NOW + 1), Err(FaucetError::MaxBalanceExceeded));
    assert_eq!(faucet.get_transactions(), before);
    assert_eq!(faucet.max_balance(), Some(1_000));
    assert_eq!(faucet.withdrawal_limit(), 100);
    assert_eq!(faucet.owner(), OWNER);
}

#[test]
fn deposit_that_reaches_the_ceiling_is_accepted() {
    let mut faucet = deploy(Some(1_000));
    assert_eq!(faucet.deposit(DONOR, vault(600), 400, NOW), Ok(Deposit { from: DONOR, amount: 400 }));
    assert_eq!(
        faucet.get_transactions(),
        vec![Transaction { from: DONOR, to: FAUCET, amount: 400, timestamp: NOW }]
    );
}

#[test]
fn deposit_into_a_full_faucet() {
    let mut faucet = deploy(Some(1_000));
    assert_eq!(faucet.deposit(DONOR, vault(1_000), 0, NOW), Ok(Deposit { from: DONOR, amount: 0 }));
    assert_eq!(faucet.deposit(DONOR, vault(1_000), 1, NOW), Err(FaucetError::MaxBalanceExceeded));
    assert_eq!(faucet.deposit(DONOR, vault(1_001), 0, NOW), Err(FaucetError::MaxBalanceExceeded));
}

#[test]
fn deposit_without_a_ceiling_is_always_accepted() {
    let mut faucet = deploy(None);
    assert_eq!(faucet.max_balance(), None);
    assert_eq!(
        faucet.deposit(DONOR, vault(u128::MAX), u128::MAX, NOW),
        Ok(Deposit { from: DONOR, amount: u128::MAX })
    );
    assert_eq!(
        faucet.get_transactions(),
        vec![Transaction { from: DONOR, to: FAUCET, amount: u128::MAX, timestamp: NOW }]
    );
}

#[test]
fn deposit_whose_sum_leaves_the_number_range_is_above_every_ceiling() {
    let mut faucet = deploy(Some(u128::MAX));
    assert_eq!(
        faucet.deposit(DONOR, vault(u128::MAX), 1, NOW),
        Err(FaucetError::MaxBalanceExceeded)
    );
    assert_eq!(
        faucet.deposit(DONOR, vault(1), u128::MAX, NOW),
        Err(FaucetError::MaxBalanceExceeded)
    );
    assert!(faucet.get_transactions().is_empty());
    assert_eq!(
        faucet.deposit(DONOR, vault(u128::MAX - 1), 1, NOW),
        Ok(Deposit { from: DONOR, amount: 1 })
    );
}

#[test]
fn deposit_has_no_cooldown_and_ignores_the_emergency_stop() {
    let mut faucet = deploy(None);
    assert_eq!(faucet.toggle_emergency_stop(OWNER), Ok(()));
    assert_eq!(faucet.deposit(DONOR, vault(0), 10, NOW), Ok(Deposit { from: DONOR, amount: 10 }));
    assert_eq!(faucet.deposit(DONOR, vault(10), 20, NOW), Ok(Deposit { from: DONOR, amount: 20 }));
    assert_eq!(faucet.deposit(DONOR, vault(30), 30, NOW - 5), Ok(Deposit { from: DONOR, amount: 30 }));
    assert_eq!(
        faucet.get_transactions(),
        vec![
            Transaction { from: DONOR, to: FAUCET, amount: 10, timestamp: NOW },
            Transaction { from: DONOR, to: FAUCET, amount: 20, timestamp: NOW },
            Transaction { from: DONOR, to: FAUCET, amount: 30, timestamp: NOW - 5 },
        ]
    );
    assert_eq!(faucet.last_withdrawal(DONOR), None);
}

#[test]
fn log_keeps_deposits_and_withdrawals_in_the_order_of_the_calls() {
    let mut faucet = deploy(None);
    assert!(faucet.deposit(DONOR, vault(0), 300, NOW).is_ok());
    assert!(faucet.withdraw(OWNER, vault(300), NOW + 1, |_| true).is_ok());
    assert!(faucet.deposit(OWNER, vault(200), 1, NOW + 2).is_ok());
    assert_eq!(
        faucet.get_transactions(),
        vec![
            Transaction { from: DONOR, to: FAUCET, amount: 300, timestamp: NOW },
            Transaction { from: FAUCET, to: OWNER, amount: 100, timestamp: NOW + 1 },
            Transaction { from: OWNER, to: FAUCET, amount: 1, timestamp: NOW + 2 },
        ]
    );
}
