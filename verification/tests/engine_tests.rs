use tx_engine::amount::Amount;
use tx_engine::engine::TransactionEngine;
use tx_engine::transaction::Transaction;

fn engine_amount(mantissa: i128, scale: u32) -> Amount {
    Amount::from_parts(mantissa, scale).unwrap()
}

#[test]
fn test_basic_happy_case() {
    let mut engine = TransactionEngine::new();

    engine
        .execute(Transaction::new_deposit(1, 2, engine_amount(12, 0)))
        .unwrap();
    engine
        .execute(Transaction::new_deposit(2, 3, engine_amount(32, 0)))
        .unwrap();
    engine
        .execute(Transaction::new_withdrawal(3, 2, engine_amount(1, 0)))
        .unwrap();
    engine.execute(Transaction::new_dispute(3, 2)).unwrap();

    let accounts = engine.account_summary();
    assert_eq!(accounts.len(), 2);

    assert_eq!(accounts[0].id, 2);
    assert!(accounts[0].available.eq_value(&engine_amount(12, 0)));
    assert!(accounts[0].held.eq_value(&engine_amount(-1, 0)));
    assert!(accounts[0].total.eq_value(&engine_amount(11, 0)));
    assert!(!accounts[0].is_locked);

    assert_eq!(accounts[1].id, 3);
    assert!(accounts[1].available.eq_value(&engine_amount(32, 0)));
    assert!(accounts[1].held.eq_value(&engine_amount(0, 0)));
    assert!(accounts[1].total.eq_value(&engine_amount(32, 0)));
    assert!(!accounts[1].is_locked);
}

#[test]
fn test_two_deposits_two_clients() {
    let mut engine = TransactionEngine::new();

    engine
        .execute(Transaction::new_deposit(1, 1, engine_amount(10, 1)))
        .unwrap();
    engine
        .execute(Transaction::new_deposit(2, 2, engine_amount(20, 1)))
        .unwrap();

    let accounts = engine.account_summary();
    assert_eq!(accounts.len(), 2);

    assert_eq!(accounts[0].id, 1);
    assert!(accounts[0].available.eq_value(&engine_amount(10, 1)));
    assert!(accounts[0].held.eq_value(&engine_amount(0, 0)));
    assert!(accounts[0].total.eq_value(&engine_amount(10, 1)));
    assert!(!accounts[0].is_locked);

    assert_eq!(accounts[1].id, 2);
    assert!(accounts[1].available.eq_value(&engine_amount(20, 1)));
    assert!(accounts[1].held.eq_value(&engine_amount(0, 1)));
    assert!(accounts[1].total.eq_value(&engine_amount(20, 1)));
    assert!(!accounts[1].is_locked);
}

#[test]
fn test_withdrawal_dispute_scenario() {
    let mut engine = TransactionEngine::new();

    engine
        .execute(Transaction::new_deposit(23, 1, engine_amount(100, 0)))
        .unwrap();
    engine
        .execute(Transaction::new_withdrawal(24, 1, engine_amount(64, 0)))
        .unwrap();
    engine.execute(Transaction::new_dispute(24, 1)).unwrap();

    let accounts = engine.account_summary();
    assert_eq!(accounts.len(), 1);
    assert!(accounts[0].available.eq_value(&engine_amount(100, 0)));
    assert!(accounts[0].held.eq_value(&engine_amount(-64, 0)));
    assert!(accounts[0].total.eq_value(&engine_amount(36, 0)));
    assert!(!accounts[0].is_locked);
}

#[test]
fn test_chargeback_scenario_locks_account() {
    let mut engine = TransactionEngine::new();

    engine
        .execute(Transaction::new_deposit(23, 1, engine_amount(12323, 2)))
        .unwrap();
    engine.execute(Transaction::new_dispute(23, 1)).unwrap();
    engine.execute(Transaction::new_charge_back(23, 1)).unwrap();

    let accounts = engine.account_summary();
    assert_eq!(accounts.len(), 1);
    assert!(accounts[0].available.eq_value(&engine_amount(0, 0)));
    assert!(accounts[0].held.eq_value(&engine_amount(0, 0)));
    assert!(accounts[0].total.eq_value(&engine_amount(0, 0)));
    assert!(accounts[0].is_locked);

    let err = engine
        .execute(Transaction::new_deposit(24, 1, engine_amount(1, 0)))
        .unwrap_err();
    assert_eq!(
        format!("{:?}", err),
        "InvalidOperation(\"Attempt to execute a transaction on locked account [1].\")"
    );
}

#[test]
fn test_dispute_for_unknown_client_creates_empty_account() {
    let mut engine = TransactionEngine::new();

    engine.execute(Transaction::new_dispute(5, 42)).unwrap();

    let accounts = engine.account_summary();
    assert_eq!(accounts.len(), 1);
    assert_eq!(accounts[0].id, 42);
    assert!(accounts[0].available.eq_value(&engine_amount(0, 0)));
    assert!(accounts[0].held.eq_value(&engine_amount(0, 0)));
    assert!(!accounts[0].is_locked);
}

#[test]
fn test_summaries_come_sorted_by_client_id() {
    let mut engine = TransactionEngine::new();

    engine
        .execute(Transaction::new_deposit(1, 900, engine_amount(1, 0)))
        .unwrap();
    engine
        .execute(Transaction::new_deposit(2, 7, engine_amount(2, 0)))
        .unwrap();
    engine
        .execute(Transaction::new_deposit(3, 450, engine_amount(3, 0)))
        .unwrap();

    let accounts = engine.account_summary();
    assert_eq!(accounts.len(), 3);
    assert_eq!(accounts[0].id, 7);
    assert_eq!(accounts[1].id, 450);
    assert_eq!(accounts[2].id, 900);
}

#[test]
fn test_can_execute_and_summaries_fit() {
    let mut engine = TransactionEngine::new();

    let deposit = Transaction::new_deposit(1, 1, engine_amount(5, 0));
    assert!(engine.can_execute(&deposit));
    engine.execute(deposit).unwrap();
    assert!(engine.summaries_fit());
}
