use stylus_sdk::alloy_primitives::U256;
use vulnerable_vault::{
    Address, Amount, Event, GuardStatus, Ledger, ReentrancyGuard, Transfer, VaultError,
    VulnerableVault,
};

fn account(byte: u8) -> Address {
    Address::new([byte; 20])
}

fn amount(value: u64) -> Amount {
    Amount::from_u64(value)
}

fn funded(user: Address, value: u64) -> VulnerableVault {
    let mut vault = VulnerableVault::new();
    assert_eq!(
        vault.deposit(user, amount(value)),
        Ok(Event::Deposit { user, amount: amount(value) })
    );
    vault
}

#[test]
fn test_reentrancy_constants() {
    let not_entered = Amount::from_u64(0);
    let entered = Amount::from_u64(1);

    assert_eq!(not_entered, Amount::from_limbs(U256::from(0).into_limbs()));
    assert_eq!(entered, Amount::from_limbs(U256::from(1).into_limbs()));
}

#[test]
fn test_balance_arithmetic() {
    let user = account(1);
    let initial = amount(1000);
    let deposit = amount(100);
    let withdraw = amount(50);

    let mut ledger = Ledger::new();
    assert_eq!(ledger.credit(user, initial), Ok(()));

    assert_eq!(ledger.credit(user, deposit), Ok(()));
    let after_deposit = ledger.balance_of(user);
    assert_eq!(ledger.debit(user, withdraw), Ok(()));
    let after_withdraw = ledger.balance_of(user);

    assert_eq!(after_deposit, amount(1100));
    assert_eq!(after_withdraw, amount(1050));
}

#[test]
fn test_reentrancy_status_logic() {
    let mut guard = ReentrancyGuard::new();

    // Should start as not entered
    assert_eq!(guard.status, GuardStatus::NotEntered);

    // Entering
    assert_eq!(guard.enter(), Ok(()));
    assert_eq!(guard.status, GuardStatus::Entered);

    // Exiting
    guard.exit();
    assert_eq!(guard.status, GuardStatus::NotEntered);
}

#[test]
fn test_address_comparison() {
    let user1 = Address::new([1u8; 20]);
    let user2 = Address::new([2u8; 20]);

    assert_ne!(user1, user2);
    assert_ne!(user1, Address::zero());
}

#[test]
fn addresses_are_the_same_only_when_every_byte_is() {
    let mut bytes = [7u8; 20];
    let user = Address::new(bytes);
    assert!(user.same(&Address::new([7u8; 20])));
    bytes[19] = 8;
    assert!(!user.same(&Address::new(bytes)));
    assert!(Address::zero().same(&Address::new([0u8; 20])));
    assert_eq!(Address::zero().bytes, [0u8; 20]);
}

#[test]
fn amounts_are_little_endian_limbs() {
    assert_eq!(Amount::zero().to_limbs(), [0, 0, 0, 0]);
    assert_eq!(amount(7).to_limbs(), [7, 0, 0, 0]);
    assert_eq!(Amount::from_limbs([1, 2, 3, 4]).to_limbs(), [1, 2, 3, 4]);
    assert_eq!(amount(u64::MAX).to_limbs(), U256::from(u64::MAX).into_limbs());
    let big: U256 = (U256::from(5) << 192usize) + U256::from(9);
    assert_eq!(Amount::from_limbs([9, 0, 0, 5]).to_limbs(), big.into_limbs());
}

#[test]
fn new_vault_is_empty_and_free() {
    let vault = VulnerableVault::new();
    assert_eq!(vault.total_deposits(), Amount::zero());
    assert_eq!(vault.balance_of(account(1)), Amount::zero());
    assert!(!vault.is_entered());
}

#[test]
fn balance_of_unknown_account_is_zero() {
    let vault = funded(account(1), 100);
    assert_eq!(vault.balance_of(account(2)), amount(0));
    assert_eq!(vault.balance_of(Address::zero()), amount(0));
}

#[test]
fn deposit_then_protected_withdraw_then_overdraw() {
    let x = account(0xaa);
    let mut vault = VulnerableVault::new();
    assert_eq!(vault.total_deposits(), amount(0));

    assert_eq!(vault.deposit(x, amount(100)), Ok(Event::Deposit { user: x, amount: amount(100) }));
    assert_eq!(vault.balance_of(x), amount(100));
    assert_eq!(vault.total_deposits(), amount(100));

    let mut transfers = Vec::new();
    let transfer = vault.withdraw(x, amount(40)).unwrap();
    transfers.push(transfer);
    assert_eq!(
        vault.finish_withdraw(transfer),
        Event::Withdrawal { user: x, amount: amount(40) }
    );
    assert_eq!(vault.balance_of(x), amount(60));
    assert_eq!(vault.total_deposits(), amount(60));
    assert_eq!(transfers, vec![Transfer { to: x, amount: amount(40) }]);

    assert_eq!(vault.withdraw(x, amount(1000)), Err(VaultError::InsufficientBalance));
    assert_eq!(vault.balance_of(x), amount(60));
    assert_eq!(vault.total_deposits(), amount(60));
    assert!(!vault.is_entered());
}

#[test]
fn guard_is_free_before_and_after_every_top_level_call() {
    let x = account(1);
    let mut vault = VulnerableVault::new();
    assert!(!vault.is_entered());

    assert!(vault.deposit(x, amount(10)).is_ok());
    assert!(!vault.is_entered());

    assert_eq!(vault.withdraw(x, amount(11)), Err(VaultError::InsufficientBalance));
    assert!(!vault.is_entered());

    let transfer = vault.withdraw(x, amount(4)).unwrap();
    assert!(vault.is_entered());
    vault.finish_withdraw(transfer);
    assert!(!vault.is_entered());

    let max = Amount::from_limbs([u64::MAX; 4]);
    assert_eq!(vault.deposit(x, max), Err(VaultError::ArithmeticOverflow));
    assert!(!vault.is_entered());
}

#[test]
fn nested_enter_fails_and_changes_nothing() {
    let mut guard = ReentrancyGuard::new();
    assert!(!guard.is_entered());
    assert_eq!(guard.enter(), Ok(()));
    assert!(guard.is_entered());
    assert_eq!(guard.enter(), Err(VaultError::ReentrantCall));
    assert!(guard.is_entered());
    assert_eq!(guard.enter(), Err(VaultError::ReentrantCall));
    guard.exit();
    assert!(!guard.is_entered());
    guard.exit();
    assert!(!guard.is_entered());
    assert_eq!(guard.enter(), Ok(()));
}

#[test]
fn protected_withdraw_rejects_calls_made_by_its_transfer() {
    let x = account(1);
    let y = account(2);
    let mut vault = funded(x, 100);
    assert!(vault.deposit(y, amount(30)).is_ok());

    let transfer = vault.withdraw(x, amount(40)).unwrap();
    assert_eq!(transfer, Transfer { to: x, amount: amount(40) });
    assert!(vault.is_entered());
    assert_eq!(vault.balance_of(x), amount(60));

    // What the transfer tries while the withdrawal is still in progress.
    assert_eq!(vault.withdraw(x, amount(40)), Err(VaultError::ReentrantCall));
    assert_eq!(vault.withdraw(x, amount(0)), Err(VaultError::ReentrantCall));
    assert_eq!(vault.deposit(x, amount(5)), Err(VaultError::ReentrantCall));
    assert_eq!(vault.withdraw(y, amount(1)), Err(VaultError::ReentrantCall));
    assert_eq!(vault.deposit(y, amount(1)), Err(VaultError::ReentrantCall));
    assert!(vault.is_entered());
    assert_eq!(vault.balance_of(x), amount(60));
    assert_eq!(vault.balance_of(y), amount(30));
    assert_eq!(vault.total_deposits(), amount(90));

    vault.finish_withdraw(transfer);
    assert!(!vault.is_entered());
    assert_eq!(vault.balance_of(x), amount(60));
    assert_eq!(vault.total_deposits(), amount(90));
    assert!(vault.deposit(x, amount(5)).is_ok());
    assert_eq!(vault.balance_of(x), amount(65));
}

#[test]
fn unprotected_withdraw_pays_twice_for_one_debit() {
    let x = account(1);
    let mut vault = funded(x, 100);
    let mut paid = Vec::new();

    let outer = vault.unsafe_withdraw(x, amount(60)).unwrap();
    paid.push(outer);
    // The transfer calls back before the debit is recorded.
    assert_eq!(vault.balance_of(x), amount(100));
    let inner = vault.unsafe_withdraw(x, amount(60)).unwrap();
    paid.push(inner);
    assert_eq!(
        vault.finish_unsafe_withdraw(inner),
        Ok(Event::Withdrawal { user: x, amount: amount(60) })
    );
    assert_eq!(vault.balance_of(x), amount(40));
    // Back in the first withdrawal.
    assert_eq!(vault.finish_unsafe_withdraw(outer), Err(VaultError::InsufficientBalance));

    assert_eq!(paid, vec![Transfer { to: x, amount: amount(60) }; 2]);
    assert_eq!(vault.balance_of(x), amount(40));
    assert_eq!(vault.total_deposits(), amount(40));
}

#[test]
fn unprotected_withdraw_twice_within_the_balance() {
    let x = account(1);
    let mut vault = funded(x, 100);

    let outer = vault.unsafe_withdraw(x, amount(40)).unwrap();
    let inner = vault.unsafe_withdraw(x, amount(40)).unwrap();
    assert!(vault.finish_unsafe_withdraw(inner).is_ok());
    assert_eq!(vault.balance_of(x), amount(60));
    assert!(vault.finish_unsafe_withdraw(outer).is_ok());
    assert_eq!(vault.balance_of(x), amount(20));
    assert_eq!(vault.total_deposits(), amount(20));
}

#[test]
fn unprotected_withdraw_of_nothing_twice() {
    let x = account(1);
    let mut vault = funded(x, 100);

    let outer = vault.unsafe_withdraw(x, amount(0)).unwrap();
    let inner = vault.unsafe_withdraw(x, amount(0)).unwrap();
    assert!(vault.finish_unsafe_withdraw(inner).is_ok());
    assert!(vault.finish_unsafe_withdraw(outer).is_ok());
    assert_eq!(vault.balance_of(x), amount(100));
}

#[test]
fn unprotected_withdraw_ignores_the_guard() {
    let x = account(1);
    let mut vault = funded(x, 100);

    let protected = vault.withdraw(x, amount(10)).unwrap();
    assert!(vault.is_entered());
    // The debit of 10 is on record already: only 90 are left to take.
    assert_eq!(vault.unsafe_withdraw(x, amount(91)), Err(VaultError::InsufficientBalance));
    let unprotected = vault.unsafe_withdraw(x, amount(90)).unwrap();
    assert_eq!(
        vault.finish_unsafe_withdraw(unprotected),
        Ok(Event::Withdrawal { user: x, amount: amount(90) })
    );
    assert!(vault.is_entered());
    assert_eq!(vault.balance_of(x), amount(0));
    vault.finish_withdraw(protected);
    assert!(!vault.is_entered());
    assert_eq!(vault.total_deposits(), amount(0));
}

#[test]
fn unprotected_withdraw_checks_the_balance() {
    let x = account(1);
    let vault = funded(x, 100);
    assert_eq!(vault.unsafe_withdraw(x, amount(101)), Err(VaultError::InsufficientBalance));
    assert_eq!(vault.unsafe_withdraw(account(2), amount(1)), Err(VaultError::InsufficientBalance));
    assert_eq!(
        vault.unsafe_withdraw(x, amount(100)),
        Ok(Transfer { to: x, amount: amount(100) })
    );
    assert_eq!(vault.balance_of(x), amount(100));
}

#[test]
fn debit_of_more_than_the_balance_fails_and_changes_nothing() {
    let x = account(1);
    let y = account(2);
    let mut ledger = Ledger::new();
    assert_eq!(ledger.credit(x, amount(60)), Ok(()));
    assert_eq!(ledger.credit(y, amount(500)), Ok(()));

    assert_eq!(ledger.debit(x, amount(61)), Err(VaultError::InsufficientBalance));
    assert_eq!(ledger.debit(account(3), amount(1)), Err(VaultError::InsufficientBalance));
    assert_eq!(ledger.balance_of(x), amount(60));
    assert_eq!(ledger.balance_of(y), amount(500));
    assert_eq!(ledger.total_deposits(), amount(560));

    assert_eq!(ledger.debit(x, amount(60)), Ok(()));
    assert_eq!(ledger.balance_of(x), amount(0));
    assert_eq!(ledger.total_deposits(), amount(500));
    assert_eq!(ledger.debit(account(3), amount(0)), Ok(()));
    assert_eq!(ledger.total_deposits(), amount(500));
}

#[test]
fn total_is_the_sum_of_the_balances_after_every_operation() {
    let users = [account(1), account(2), account(3)];
    let mut ledger = Ledger::new();
    let mut expected = [0u64; 3];
    let steps: [(usize, bool, u64); 9] = [
        (0, true, 100),
        (1, true, 250),
        (0, false, 30),
        (2, true, 7),
        (1, false, 251),
        (1, false, 250),
        (2, false, 8),
        (0, true, 1),
        (2, false, 7),
    ];
    for (who, credit, value) in steps {
        if credit {
            assert_eq!(ledger.credit(users[who], amount(value)), Ok(()));
            expected[who] += value;
        } else if value <= expected[who] {
            assert_eq!(ledger.debit(users[who], amount(value)), Ok(()));
            expected[who] -= value;
        } else {
            assert_eq!(ledger.debit(users[who], amount(value)), Err(VaultError::InsufficientBalance));
        }
        for i in 0..3 {
            assert_eq!(ledger.balance_of(users[i]), amount(expected[i]));
        }
        assert_eq!(ledger.total_deposits(), amount(expected[0] + expected[1] + expected[2]));
    }
    assert_eq!(expected, [71, 0, 0]);
}

#[test]
fn credit_carries_and_debit_borrows_across_limbs() {
    let x = account(1);
    let mut ledger = Ledger::new();
    assert_eq!(ledger.credit(x, amount(u64::MAX)), Ok(()));
    assert_eq!(ledger.credit(x, amount(1)), Ok(()));
    assert_eq!(ledger.balance_of(x).to_limbs(), [0, 1, 0, 0]);
    assert_eq!(ledger.total_deposits().to_limbs(), [0, 1, 0, 0]);

    // 2^64 covers 2^64 - 1, though its lowest limb is the smaller one.
    assert_eq!(ledger.debit(x, amount(u64::MAX)), Ok(()));
    assert_eq!(ledger.balance_of(x), amount(1));

    assert_eq!(ledger.credit(x, Amount::from_limbs([0, 0, 0, 1])), Ok(()));
    assert_eq!(ledger.debit(x, Amount::from_limbs([2, 0, 0, 0])), Ok(()));
    assert_eq!(ledger.balance_of(x).to_limbs(), [u64::MAX, u64::MAX, u64::MAX, 0]);
    // The highest limb counts most.
    assert_eq!(
        ledger.debit(x, Amount::from_limbs([0, 0, 0, 1])),
        Err(VaultError::InsufficientBalance)
    );
}

#[test]
fn credit_past_the_largest_amount_fails_and_changes_nothing() {
    let x = account(1);
    let y = account(2);
    let max = Amount::from_limbs([u64::MAX; 4]);
    let mut ledger = Ledger::new();
    assert_eq!(ledger.credit(x, max), Ok(()));
    assert_eq!(ledger.balance_of(x), max);

    assert_eq!(ledger.credit(x, amount(1)), Err(VaultError::ArithmeticOverflow));
    // The aggregate total overflows even where the account's own balance would not.
    assert_eq!(ledger.credit(y, amount(1)), Err(VaultError::ArithmeticOverflow));
    assert_eq!(ledger.credit(y, amount(0)), Ok(()));
    assert_eq!(ledger.balance_of(x), max);
    assert_eq!(ledger.balance_of(y), amount(0));
    assert_eq!(ledger.total_deposits(), max);

    assert_eq!(ledger.debit(x, amount(1)), Ok(()));
    assert_eq!(ledger.credit(y, amount(1)), Ok(()));
    assert_eq!(ledger.total_deposits(), max);
}

#[test]
fn deposit_that_overflows_fails_and_frees_the_guard() {
    let x = account(1);
    let mut vault = funded(x, 1);
    let max = Amount::from_limbs([u64::MAX; 4]);
    assert_eq!(vault.deposit(account(2), max), Err(VaultError::ArithmeticOverflow));
    assert!(!vault.is_entered());
    assert_eq!(vault.balance_of(account(2)), amount(0));
    assert_eq!(vault.total_deposits(), amount(1));
    let below_max = Amount::from_limbs([u64::MAX - 1, u64::MAX, u64::MAX, u64::MAX]);
    assert!(vault.deposit(account(2), below_max).is_ok());
    assert_eq!(vault.total_deposits(), max);
}

#[test]
fn every_error_has_its_message() {
    assert_eq!(VaultError::ReentrantCall.message(), "ReentrancyGuard: reentrant call");
    assert_eq!(VaultError::InsufficientBalance.message(), "Insufficient balance");
    assert_eq!(VaultError::ArithmeticOverflow.message(), "Arithmetic overflow");
}
