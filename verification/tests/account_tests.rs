use tx_engine::account::Account;
use tx_engine::amount::Amount;

fn amount_of(mantissa: i128, scale: u32) -> Amount {
    Amount::from_parts(mantissa, scale).unwrap()
}

#[test]
fn test_disputes_dont_fail_if_tx_does_not_exist() {
    let mut account = Account::new(1);

    account.chargeback(82).unwrap();
    account.resolve(82).unwrap();
    account.dispute(82).unwrap();
}

#[test]
fn test_can_dispute_deposit() {
    let mut account = Account::new(1);

    account.deposit(23, amount_of(12323, 2)).unwrap();

    assert!(account.held().eq_value(&amount_of(0, 0)));
    assert!(account.available().eq_value(&amount_of(12323, 2)));
    assert!(account.total().eq_value(&amount_of(12323, 2)));
    assert!(!account.is_locked());

    account.dispute(23).unwrap();

    assert!(account.held().eq_value(&amount_of(12323, 2)));
    assert!(account.available().eq_value(&amount_of(0, 0)));
    assert!(account.total().eq_value(&amount_of(12323, 2)));
    assert!(!account.is_locked());
}

#[test]
fn test_accepts_each_transaction_only_once() {
    let mut account = Account::new(1);

    account.deposit(23, amount_of(12323, 2)).unwrap();

    assert_eq!(
        format!("{:?}", account.deposit(23, amount_of(12323, 2)).unwrap_err()),
        "InvalidOperation(\"Attempt to execute a transaction [23] twice for account [1].\")"
    );
}

#[test]
fn test_can_not_withdraw_more_than_balance() {
    let mut account = Account::new(1);

    account.deposit(23, amount_of(10, 0)).unwrap();

    assert_eq!(
        format!("{:?}", account.withdraw(24, amount_of(100001, 4)).unwrap_err()),
        "InvalidArgument(\"Attempt to withdraw an amount [10.0001] greater than balance [10] in transaction [24] for account [1].\")"
    );
}

#[test]
fn test_can_not_withdraw_held_funds() {
    let mut account = Account::new(1);

    account.deposit(23, amount_of(10, 0)).unwrap();
    account.dispute(23).unwrap();

    assert_eq!(
        format!("{:?}", account.withdraw(24, amount_of(1, 0)).unwrap_err()),
        "InvalidArgument(\"Attempt to withdraw an amount [1] greater than balance [0] in transaction [24] for account [1].\")"
    );
}

#[test]
fn test_can_dispute_deposit_after_withdrawal() {
    let mut account = Account::new(1);

    account.deposit(23, amount_of(100, 0)).unwrap();
    account.withdraw(24, amount_of(64, 0)).unwrap();

    assert!(account.held().eq_value(&amount_of(0, 0)));
    assert!(account.available().eq_value(&amount_of(36, 0)));
    assert!(account.total().eq_value(&amount_of(36, 0)));
    assert!(!account.is_locked());

    account.dispute(23).unwrap();

    assert!(account.held().eq_value(&amount_of(100, 0)));
    assert!(account.available().eq_value(&amount_of(-64, 0)));
    assert!(account.total().eq_value(&amount_of(36, 0)));
    assert!(!account.is_locked());
}

#[test]
fn test_can_dispute_deposits_after_withdrawal() {
    let mut account = Account::new(1);

    account.deposit(23, amount_of(100, 0)).unwrap();
    account.deposit(24, amount_of(200, 0)).unwrap();
    account.withdraw(25, amount_of(164, 0)).unwrap();

    assert!(account.held().eq_value(&amount_of(0, 0)));
    assert!(account.available().eq_value(&amount_of(136, 0)));
    assert!(account.total().eq_value(&amount_of(136, 0)));
    assert!(!account.is_locked());

    account.dispute(23).unwrap();
    account.dispute(24).unwrap();

    assert!(account.held().eq_value(&amount_of(300, 0)));
    assert!(account.available().eq_value(&amount_of(-164, 0)));
    assert!(account.total().eq_value(&amount_of(136, 0)));
    assert!(!account.is_locked());
}

#[test]
fn test_can_dispute_withdrawal_after_deposit() {
    let mut account = Account::new(1);

    account.deposit(23, amount_of(100, 0)).unwrap();
    account.withdraw(24, amount_of(64, 0)).unwrap();

    assert!(account.held().eq_value(&amount_of(0, 0)));
    assert!(account.available().eq_value(&amount_of(36, 0)));
    assert!(account.total().eq_value(&amount_of(36, 0)));
    assert!(!account.is_locked());

    account.dispute(24).unwrap();

    assert!(account.held().eq_value(&amount_of(-64, 0)));
    assert!(account.available().eq_value(&amount_of(100, 0)));
    assert!(account.total().eq_value(&amount_of(36, 0)));
    assert!(!account.is_locked());
}

#[test]
fn test_can_resolve_disputed_deposit() {
    let mut account = Account::new(1);

    account.deposit(23, amount_of(12323, 2)).unwrap();
    account.dispute(23).unwrap();
    account.resolve(23).unwrap();

    assert!(account.held().eq_value(&amount_of(0, 0)));
    assert!(account.available().eq_value(&amount_of(12323, 2)));
    assert!(account.total().eq_value(&amount_of(12323, 2)));
    assert!(!account.is_locked());
}

#[test]
fn test_can_resolve_disputed_withdrawal() {
    let mut account = Account::new(1);

    account.deposit(23, amount_of(132, 0)).unwrap();
    account.withdraw(24, amount_of(32, 0)).unwrap();
    account.dispute(24).unwrap();
    account.resolve(24).unwrap();

    assert!(account.held().eq_value(&amount_of(0, 0)));
    assert!(account.available().eq_value(&amount_of(100, 0)));
    assert!(account.total().eq_value(&amount_of(100, 0)));
    assert!(!account.is_locked());
}

#[test]
fn test_can_chargeback_disputed_deposit() {
    let mut account = Account::new(1);

    account.deposit(23, amount_of(12323, 2)).unwrap();
    account.dispute(23).unwrap();
    account.chargeback(23).unwrap();

    assert!(account.held().eq_value(&amount_of(0, 0)));
    assert!(account.available().eq_value(&amount_of(0, 0)));
    assert!(account.total().eq_value(&amount_of(0, 0)));
    assert!(account.is_locked());

    assert_eq!(
        format!("{:?}", account.dispute(0).unwrap_err()),
        "InvalidOperation(\"Attempt to execute a transaction on locked account [1].\")"
    );

    assert_eq!(
        format!("{:?}", account.chargeback(0).unwrap_err()),
        "InvalidOperation(\"Attempt to execute a transaction on locked account [1].\")"
    );

    assert_eq!(
        format!("{:?}", account.resolve(0).unwrap_err()),
        "InvalidOperation(\"Attempt to execute a transaction on locked account [1].\")"
    );

    assert_eq!(
        format!("{:?}", account.deposit(0, amount_of(0, 0)).unwrap_err()),
        "InvalidOperation(\"Attempt to execute a transaction on locked account [1].\")"
    );

    assert_eq!(
        format!("{:?}", account.withdraw(0, amount_of(0, 0)).unwrap_err()),
        "InvalidOperation(\"Attempt to execute a transaction on locked account [1].\")"
    );
}

#[test]
fn test_can_chargeback_disputed_withdrawal() {
    let mut account = Account::new(1);

    account.deposit(22, amount_of(12323, 2)).unwrap();
    account.withdraw(23, amount_of(100, 0)).unwrap();
    account.dispute(23).unwrap();
    account.chargeback(23).unwrap();

    assert!(account.held().eq_value(&amount_of(0, 0)));
    assert!(account.available().eq_value(&amount_of(12323, 2)));
    assert!(account.total().eq_value(&amount_of(12323, 2)));
    assert!(account.is_locked());
}

#[test]
fn test_dispute_twice_has_effect_of_one() {
    let mut account = Account::new(7);

    account.deposit(11, amount_of(505, 1)).unwrap();
    account.dispute(11).unwrap();

    let available_once = account.available();
    let held_once = account.held();

    account.dispute(11).unwrap();

    assert!(account.available().eq_value(&available_once));
    assert!(account.held().eq_value(&held_once));
    assert!(account.available().eq_value(&amount_of(0, 0)));
    assert!(account.held().eq_value(&amount_of(505, 1)));
    assert!(!account.is_locked());
}

#[test]
fn test_unknown_references_leave_account_untouched() {
    let mut account = Account::new(3);

    account.deposit(1, amount_of(75, 1)).unwrap();

    account.dispute(999).unwrap();
    account.resolve(999).unwrap();
    account.chargeback(999).unwrap();

    assert!(account.available().eq_value(&amount_of(75, 1)));
    assert!(account.held().eq_value(&amount_of(0, 0)));
    assert!(account.total().eq_value(&amount_of(75, 1)));
    assert!(!account.is_locked());
}

#[test]
fn test_failed_withdrawal_leaves_balance_unchanged() {
    let mut account = Account::new(1);

    account.deposit(23, amount_of(10, 0)).unwrap();

    assert!(account.withdraw(24, amount_of(100001, 4)).is_err());

    assert!(account.available().eq_value(&amount_of(10, 0)));
    assert!(account.held().eq_value(&amount_of(0, 0)));
    assert!(account.total().eq_value(&amount_of(10, 0)));
    assert!(!account.is_locked());
}

#[test]
fn test_negative_amounts_are_refused() {
    let mut account = Account::new(2);

    assert_eq!(
        format!("{:?}", account.deposit(5, amount_of(-1, 0)).unwrap_err()),
        "InvalidArgument(\"Attempt to deposit a negative amount [-1] in transaction [5] for account [2].\")"
    );
    assert_eq!(
        format!("{:?}", account.withdraw(5, amount_of(-25, 1)).unwrap_err()),
        "InvalidArgument(\"Attempt to withdraw a negative amount [-2.5] in transaction [5] for account [2].\")"
    );
    assert!(account.available().eq_value(&amount_of(0, 0)));
    assert!(account.held().eq_value(&amount_of(0, 0)));
}
