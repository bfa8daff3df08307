use ledger::{Account, Amount, TxError};

const MAX_MANTISSA: i128 = 0xFFFF_FFFF_FFFF_FFFF_FFFF_FFFF;

fn funded(available: i64, held: i64) -> Account {
    let mut account = Account::new();
    account.deposit(Amount::new(available + held, 4)).unwrap();
    if held != 0 {
        account.apply_dispute(Amount::new(held, 4)).unwrap();
    }
    account
}

fn written(a: Amount) -> (i128, u32) {
    (a.mantissa(), a.scale())
}

fn assert_same(a: &Account, b: &Account) {
    assert_eq!(written(a.available), written(b.available));
    assert_eq!(written(a.held), written(b.held));
    assert_eq!(written(a.total), written(b.total));
    assert_eq!(a.locked, b.locked);
}

fn assert_balanced(a: &Account) {
    assert_eq!(a.available.checked_add(a.held).unwrap(), a.total);
}

#[test]
fn new_account_is_empty_and_unlocked() {
    let account = Account::new();
    assert_eq!(written(account.available), (0, 0));
    assert_eq!(written(account.held), (0, 0));
    assert_eq!(written(account.total), (0, 0));
    assert!(!account.locked);
    assert_balanced(&account);
}

#[test]
fn deposit_adds_to_available_and_total() {
    let mut account = funded(50000, 20000);
    assert_eq!(account.deposit(Amount::new(12345, 4)), Ok(()));
    assert_eq!(written(account.available), (62345, 4));
    assert_eq!(written(account.held), (20000, 4));
    assert_eq!(written(account.total), (82345, 4));
    assert!(!account.locked);
    assert_balanced(&account);
}

#[test]
fn deposit_on_locked_account_fails_and_changes_nothing() {
    let mut account = funded(50000, 20000);
    account.locked = true;
    let before = account;
    assert_eq!(
        account.deposit(Amount::new(1, 4)),
        Err(TxError::LockedAccount)
    );
    assert_same(&account, &before);
}

#[test]
fn withdraw_takes_from_available_and_total() {
    let mut account = funded(50000, 20000);
    assert_eq!(account.withdraw(Amount::new(50000, 4)), Ok(()));
    assert_eq!(written(account.available), (0, 4));
    assert_eq!(written(account.held), (20000, 4));
    assert_eq!(written(account.total), (20000, 4));
    assert_balanced(&account);
}

#[test]
fn withdraw_more_than_available_fails_and_changes_nothing() {
    let mut account = funded(50000, 20000);
    let before = account;
    // the total would cover it, what is available does not
    assert_eq!(
        account.withdraw(Amount::new(50001, 4)),
        Err(TxError::InsufficientFunds)
    );
    assert_same(&account, &before);
}

#[test]
fn withdraw_on_locked_account_fails_first() {
    let mut account = funded(50000, 0);
    account.locked = true;
    let before = account;
    assert_eq!(
        account.withdraw(Amount::new(1, 4)),
        Err(TxError::LockedAccount)
    );
    assert_eq!(
        account.withdraw(Amount::new(99999, 4)),
        Err(TxError::LockedAccount)
    );
    assert_same(&account, &before);
}

#[test]
fn dispute_moves_from_available_to_held() {
    let mut account = funded(50000, 20000);
    assert_eq!(account.apply_dispute(Amount::new(30000, 4)), Ok(()));
    assert_eq!(written(account.available), (20000, 4));
    assert_eq!(written(account.held), (50000, 4));
    assert_eq!(written(account.total), (70000, 4));
    assert_balanced(&account);
}

#[test]
fn dispute_over_more_than_available_fails_and_changes_nothing() {
    let mut account = funded(50000, 20000);
    let before = account;
    assert_eq!(
        account.apply_dispute(Amount::new(50001, 4)),
        Err(TxError::InsufficientAvailable)
    );
    assert_same(&account, &before);
    account.locked = true;
    assert_eq!(
        account.apply_dispute(Amount::new(1, 4)),
        Err(TxError::LockedAccount)
    );
}

#[test]
fn resolve_moves_from_held_back_to_available() {
    let mut account = funded(50000, 20000);
    assert_eq!(account.resolve_dispute(Amount::new(20000, 4)), Ok(()));
    assert_eq!(written(account.available), (70000, 4));
    assert_eq!(written(account.held), (0, 4));
    assert_eq!(written(account.total), (70000, 4));
    assert_balanced(&account);
}

#[test]
fn resolve_of_more_than_held_fails_and_changes_nothing() {
    let mut account = funded(50000, 20000);
    let before = account;
    assert_eq!(
        account.resolve_dispute(Amount::new(20001, 4)),
        Err(TxError::InsufficientHeld)
    );
    assert_same(&account, &before);
    account.locked = true;
    assert_eq!(
        account.resolve_dispute(Amount::new(1, 4)),
        Err(TxError::LockedAccount)
    );
}

#[test]
fn chargeback_takes_from_held_and_total_and_locks() {
    let mut account = funded(50000, 20000);
    assert_eq!(account.chargeback(Amount::new(15000, 4)), Ok(()));
    assert_eq!(written(account.available), (50000, 4));
    assert_eq!(written(account.held), (5000, 4));
    assert_eq!(written(account.total), (55000, 4));
    assert!(account.locked);
    assert_balanced(&account);
}

#[test]
fn chargeback_of_more_than_held_fails_and_changes_nothing() {
    let mut account = funded(50000, 20000);
    let before = account;
    assert_eq!(
        account.chargeback(Amount::new(20001, 4)),
        Err(TxError::InsufficientHeld)
    );
    assert_same(&account, &before);
    assert!(!account.locked);
}

#[test]
fn chargeback_does_not_ask_whether_the_account_is_locked() {
    let mut account = funded(50000, 20000);
    account.locked = true;
    assert_eq!(account.chargeback(Amount::new(20000, 4)), Ok(()));
    assert_eq!(written(account.held), (0, 4));
    assert_eq!(written(account.total), (50000, 4));
    assert!(account.locked);
}

#[test]
fn amounts_of_different_scales_mix_exactly() {
    let mut account = Account::new();
    account.deposit(Amount::new(10, 0)).unwrap();
    account.deposit(Amount::new(25, 2)).unwrap();
    account.withdraw(Amount::new(1, 4)).unwrap();
    assert_eq!(written(account.available), (102499, 4));
    assert_eq!(written(account.total), (102499, 4));
    assert_eq!(account.available, Amount::new(102499, 4));
    assert_balanced(&account);
}

#[test]
fn guards_say_when_an_operation_is_exact() {
    let mut account = Account::new();
    let large = Amount::from_mantissa(MAX_MANTISSA, 0).unwrap();
    let one = Amount::new(1, 0);
    assert!(account.can_deposit(&large));
    account.deposit(large).unwrap();
    assert!(!account.can_deposit(&one));
    assert!(account.can_withdraw(&one));
    assert!(account.can_apply_dispute(&one));
    // less is held than asked for: the operation fails before any arithmetic
    assert!(account.can_resolve_dispute(&one));
    assert!(account.can_chargeback(&one));
    // a digit after the point no longer fits beside 29 digits before it
    let tenth = Amount::new(1, 1);
    assert!(!account.can_withdraw(&tenth));
    assert!(!account.can_apply_dispute(&tenth));
    // a locked account refuses the deposit before any arithmetic
    account.locked = true;
    assert!(account.can_deposit(&one));
    assert!(account.can_withdraw(&tenth));
}
