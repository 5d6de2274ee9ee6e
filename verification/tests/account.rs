use payment_engine::transaction::{Transaction, TransactionType};
use payment_engine::Account;

#[test]
fn fresh_account_is_empty_and_unlocked() {
    let account = Account::new(7);
    assert_eq!(account.id, 7);
    assert_eq!(account.available(), 0);
    assert_eq!(account.held(), 0);
    assert_eq!(account.total(), 0);
    assert!(!account.locked());
}

#[test]
fn total_is_available_plus_held() {
    let mut account = Account::new(1);
    account.deposit(30);
    account.withdraw(10);
    account.hold(5);
    assert_eq!(account.available(), 20);
    assert_eq!(account.held(), 5);
    assert_eq!(account.total(), 25);

    account.resolve(5);
    assert_eq!(account.available(), 25);
    assert_eq!(account.held(), 0);
    assert_eq!(account.total(), 25);
}

#[test]
fn reject_removes_held_funds_and_locks() {
    let mut account = Account::new(1);
    account.deposit(30);
    account.hold(12);
    account.reject(12);
    assert_eq!(account.available(), 30);
    assert_eq!(account.held(), 0);
    assert_eq!(account.total(), 30);
    assert!(account.locked());
}

#[test]
fn transaction_records_carry_their_fields() {
    let deposit = Transaction::deposit(1, 2, 30);
    assert_eq!(deposit.tx_type, TransactionType::Deposit);
    assert_eq!(deposit.client, 1);
    assert_eq!(deposit.tx, 2);
    assert_eq!(deposit.amount, Some(30));

    let dispute = Transaction::dispute(1, 2);
    assert_eq!(dispute.tx_type, TransactionType::Dispute);
    assert_eq!(dispute.amount, None);

    let withdrawal = Transaction::withdrawal(3, 4, 5);
    assert_eq!(withdrawal.tx_type, TransactionType::Withdrawal);
    let resolve = Transaction::resolve(3, 4);
    assert_eq!(resolve.tx_type, TransactionType::Resolve);
    let chargeback = Transaction::chargeback(3, 4);
    assert_eq!(chargeback.tx_type, TransactionType::Chargeback);
}
