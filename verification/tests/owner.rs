use faucet::{
    Faucet, FaucetError, Identity, Termination, Vault, Withdrawal, DEFAULT_WITHDRAWAL_LIMIT,
};

const OWNER: Identity = Identity { hi: 0, lo: 1 };
const STRANGER: Identity = Identity { hi: 0, lo: 2 };
const HEIR: Identity = Identity { hi: 5, lo: 5 };
const FAUCET: Identity = Identity { hi: 0xfa, lo: 0 };
const NOW: i64 = 1_700_000_000;

fn vault(balance: u128) -> Vault {
    Vault { address: FAUCET, balance }
}

fn deploy() -> Faucet {
    Faucet::new(OWNER, 100, Some(5_000), true)
}

#[test]
fn new_faucet_belongs_to_its_deployer_and_runs() {
    let faucet = Faucet::new(HEIR, 42, Some(7), false);
    assert_eq!(faucet.owner(), HEIR);
    assert_eq!(faucet.withdrawal_limit(), 42);
    assert_eq!(faucet.max_balance(), Some(7));
    assert!(!faucet.emergency_stop());
    assert!(!faucet.logging());
    assert_eq!(faucet.last_withdrawal(HEIR), None);
    assert!(faucet.get_transactions().is_empty());

    let plain = Faucet::new(OWNER, DEFAULT_WITHDRAWAL_LIMIT, None, true);
    assert_eq!(plain.withdrawal_limit(), 100_000_000_000_000_000);
    assert_eq!(plain.max_balance(), None);
    assert!(plain.logging());
}

#[test]
fn stranger_cannot_set_the_withdrawal_limit() {
    let mut faucet = deploy();
    assert_eq!(faucet.set_withdrawal_limit(STRANGER, 500), Err(FaucetError::Unauthorized));
    assert_eq!(faucet.withdrawal_limit(), 100);
}

#[test]
fn owner_sets_the_withdrawal_limit_to_any_amount() {
    let mut faucet = deploy();
    assert_eq!(faucet.set_withdrawal_limit(OWNER, 500), Ok(()));
    assert_eq!(faucet.withdrawal_limit(), 500);
    assert_eq!(faucet.set_withdrawal_limit(OWNER, 0), Ok(()));
    assert_eq!(faucet.withdrawal_limit(), 0);
    assert_eq!(faucet.set_withdrawal_limit(OWNER, u128::MAX), Ok(()));
    assert_eq!(faucet.withdrawal_limit(), u128::MAX);
    assert_eq!(faucet.owner(), OWNER);
    assert_eq!(faucet.max_balance(), Some(5_000));
}

#[test]
fn only_the_owner_sets_the_ceiling() {
    let mut faucet = deploy();
    assert_eq!(faucet.set_max_balance(STRANGER, Some(1)), Err(FaucetError::Unauthorized));
    assert_eq!(faucet.set_max_balance(STRANGER, None), Err(FaucetError::Unauthorized));
    assert_eq!(faucet.max_balance(), Some(5_000));

    assert_eq!(faucet.set_max_balance(OWNER, Some(1_500)), Ok(()));
    assert_eq!(faucet.max_balance(), Some(1_500));
    assert_eq!(faucet.deposit(STRANGER, vault(1_000), 501, NOW), Err(FaucetError::MaxBalanceExceeded));
    assert!(faucet.deposit(STRANGER, vault(1_000), 500, NOW).is_ok());

    assert_eq!(faucet.set_max_balance(OWNER, None), Ok(()));
    assert_eq!(faucet.max_balance(), None);
    assert!(faucet.deposit(STRANGER, vault(1_500), 1_000_000, NOW).is_ok());
}

#[test]
fn two_toggles_by_the_owner_restore_the_emergency_stop() {
    let mut faucet = deploy();
    assert!(!faucet.emergency_stop());
    assert_eq!(faucet.toggle_emergency_stop(OWNER), Ok(()));
    assert!(faucet.emergency_stop());
    assert_eq!(faucet.toggle_emergency_stop(OWNER), Ok(()));
    assert!(!faucet.emergency_stop());
    assert_eq!(faucet.owner(), OWNER);
    assert_eq!(faucet.withdrawal_limit(), 100);
    assert_eq!(faucet.max_balance(), Some(5_000));
    assert!(faucet.get_transactions().is_empty());
}

#[test]
fn stranger_cannot_toggle_the_emergency_stop() {
    let mut faucet = deploy();
    assert_eq!(faucet.toggle_emergency_stop(STRANGER), Err(FaucetError::Unauthorized));
    assert!(!faucet.emergency_stop());
    assert_eq!(faucet.toggle_emergency_stop(OWNER), Ok(()));
    assert_eq!(faucet.toggle_emergency_stop(STRANGER), Err(FaucetError::Unauthorized));
    assert!(faucet.emergency_stop());
}

#[test]
fn ownership_passes_to_the_new_owner() {
    let mut faucet = deploy();
    assert_eq!(faucet.transfer_ownership(STRANGER, STRANGER), Err(FaucetError::Unauthorized));
    assert_eq!(faucet.owner(), OWNER);

    assert_eq!(faucet.transfer_ownership(OWNER, HEIR), Ok(()));
    assert_eq!(faucet.owner(), HEIR);
    assert_eq!(faucet.set_withdrawal_limit(OWNER, 1), Err(FaucetError::Unauthorized));
    assert_eq!(faucet.set_withdrawal_limit(HEIR, 1), Ok(()));
    assert_eq!(faucet.withdrawal_limit(), 1);
}

#[test]
fn owner_may_hand_the_faucet_to_itself() {
    let mut faucet = deploy();
    assert_eq!(faucet.transfer_ownership(OWNER, OWNER), Ok(()));
    assert_eq!(faucet.owner(), OWNER);
    assert_eq!(faucet.toggle_emergency_stop(OWNER), Ok(()));
}

#[test]
fn destroy_pays_the_whole_balance_to_the_owner() {
    let faucet = deploy();
    match faucet.destroy(OWNER, vault(12_345)) {
        Ok(termination) => {
            assert_eq!(termination, Termination { beneficiary: OWNER, amount: 12_345 })
        },
        Err((_, refusal)) => panic!("the owner was refused: {:?}", refusal),
    }
}

#[test]
fn destroy_pays_the_owner_of_the_day() {
    let mut faucet = deploy();
    assert_eq!(faucet.transfer_ownership(OWNER, HEIR), Ok(()));
    let faucet = match faucet.destroy(OWNER, vault(1_000)) {
        Ok(termination) => panic!("the former owner closed the faucet: {:?}", termination),
        Err((faucet, refusal)) => {
            assert_eq!(refusal, FaucetError::Unauthorized);
            faucet
        },
    };
    match faucet.destroy(HEIR, vault(1_000)) {
        Ok(termination) => {
            assert_eq!(termination, Termination { beneficiary: HEIR, amount: 1_000 })
        },
        Err((_, refusal)) => panic!("the owner was refused: {:?}", refusal),
    }
}

#[test]
fn stranger_gets_the_faucet_back_unchanged() {
    let mut faucet = deploy();
    assert!(faucet.withdraw(STRANGER, vault(1_000), NOW, |_| true).is_ok());
    let log = faucet.get_transactions();

    let mut faucet = match faucet.destroy(STRANGER, vault(900)) {
        Ok(termination) => panic!("a stranger closed the faucet: {:?}", termination),
        Err((faucet, refusal)) => {
            assert_eq!(refusal, FaucetError::Unauthorized);
            faucet
        },
    };
    assert_eq!(faucet.owner(), OWNER);
    assert_eq!(faucet.withdrawal_limit(), 100);
    assert_eq!(faucet.max_balance(), Some(5_000));
    assert!(!faucet.emergency_stop());
    assert_eq!(faucet.last_withdrawal(STRANGER), Some(NOW));
    assert_eq!(faucet.get_transactions(), log);

    // It still serves.
    assert_eq!(
        faucet.withdraw(HEIR, vault(900), NOW, |_| true),
        Ok(Withdrawal { to: HEIR, amount: 100 })
    );
}
