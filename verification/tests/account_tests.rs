use ledger_engine::account::Account;
use ledger_engine::amount::Amount;
use ledger_engine::errors::TransactionSystemError;
use ledger_engine::instructions::{Instruction, Operation, Transaction, TransactionState};
use rust_decimal::prelude::FromPrimitive;
use rust_decimal::Decimal;

fn amt(d: Decimal) -> Amount {
    Amount::new(d.mantissa(), d.scale()).unwrap()
}

fn dec(a: Amount) -> Decimal {
    Decimal::from_i128_with_scale(a.mantissa(), a.scale())
}

fn whole(n: i32) -> Amount {
    amt(Decimal::from_i32(n).unwrap())
}

#[test]
fn deposit() {
    let mut account = Account::default();

    assert_eq!(dec(account.available()), Decimal::from_i32(0).unwrap());
    assert_eq!(dec(account.held()), Decimal::from_i32(0).unwrap());
    assert_eq!(dec(account.total()), Decimal::from_i32(0).unwrap());
    assert_eq!(account.locked(), false);

    let data = Transaction::new(1, 1, amt(Decimal::from_i32(30).unwrap()));
    assert!(account.deposit(data).is_ok());

    assert_eq!(dec(account.available()), Decimal::from_i32(30).unwrap());
    assert_eq!(dec(account.held()), Decimal::from_i32(0).unwrap());
    assert_eq!(dec(account.total()), Decimal::from_i32(30).unwrap());
}

#[test]
fn withdrawal() {
    let mut account = Account::with_balances(
        amt(Decimal::new(1000, 1)),
        Amount::zero(),
        amt(Decimal::from_i32(120).unwrap()),
    );
    assert_eq!(dec(account.held()), Decimal::from_i32(0).unwrap());
    assert_eq!(account.locked(), false);

    let data = Transaction::new(1, 1, amt(Decimal::from_i32(30).unwrap()));
    assert!(account.withdrawal(data).is_ok());

    assert_eq!(dec(account.available()), Decimal::from_i32(70).unwrap());
    assert_eq!(dec(account.held()), Decimal::from_i32(0).unwrap());
    assert_eq!(dec(account.total()), Decimal::from_i32(90).unwrap());

    // Overdraft attempt
    let data = Transaction::new(1, 1, amt(Decimal::from_i32(80).unwrap()));
    assert!(account.withdrawal(data).is_err());
}

#[test]
fn dispute() {
    let mut account = Account::with_balances(
        amt(Decimal::new(1500, 1)),
        Amount::zero(),
        amt(Decimal::from_i32(150).unwrap()),
    );
    assert_eq!(dec(account.held()), Decimal::from_i32(0).unwrap());
    assert_eq!(account.locked(), false);

    let data = Transaction::new(1, 1, amt(Decimal::from_i32(50).unwrap()));
    assert!(account.deposit(data).is_ok());

    let data = Operation::new(1, 1);
    assert!(account.dispute(data).is_ok());

    assert_eq!(dec(account.available()), Decimal::from_i32(150).unwrap());
    assert_eq!(dec(account.held()), Decimal::from_i32(50).unwrap());
    assert_eq!(dec(account.total()), Decimal::from_i32(200).unwrap());
}

#[test]
fn resolve() {
    let mut account = Account::with_balances(
        amt(Decimal::new(1500, 1)),
        Amount::zero(),
        amt(Decimal::from_i32(150).unwrap()),
    );
    assert_eq!(dec(account.held()), Decimal::from_i32(0).unwrap());
    assert_eq!(account.locked(), false);

    let data = Transaction::new(1, 1, amt(Decimal::from_i32(50).unwrap()));
    assert!(account.deposit(data).is_ok());

    let data = Operation::new(1, 1);
    assert!(account.dispute(data).is_ok());

    let data = Operation::new(1, 1);
    assert!(account.resolve(data).is_ok());

    assert_eq!(dec(account.available()), Decimal::from_i32(200).unwrap());
    assert_eq!(dec(account.held()), Decimal::from_i32(0).unwrap());
    assert_eq!(dec(account.total()), Decimal::from_i32(200).unwrap());
}

#[test]
fn chargeback() {
    let mut account = Account::with_balances(
        amt(Decimal::new(1500, 1)),
        Amount::zero(),
        amt(Decimal::from_i32(150).unwrap()),
    );
    assert_eq!(dec(account.held()), Decimal::from_i32(0).unwrap());
    assert_eq!(account.locked(), false);

    let data = Transaction::new(1, 1, amt(Decimal::from_i32(50).unwrap()));
    assert!(account.deposit(data).is_ok());

    let data = Operation::new(1, 1);
    assert!(account.dispute(data).is_ok());

    let data = Operation::new(1, 1);
    assert!(account.chargeback(data).is_ok());

    assert_eq!(dec(account.available()), Decimal::from_i32(150).unwrap());
    assert_eq!(dec(account.held()), Decimal::from_i32(0).unwrap());
    assert_eq!(dec(account.total()), Decimal::from_i32(150).unwrap());
    assert!(account.locked());
}

fn balanced(account: &Account) -> bool {
    dec(account.total()) == dec(account.available()) + dec(account.held())
}

#[test]
fn total_is_available_plus_held_after_every_instruction() {
    let mut account = Account::default();
    let steps = vec![
        Instruction::Deposit(Transaction::new(7, 1, amt(Decimal::new(1050, 2)))),
        Instruction::Deposit(Transaction::new(7, 2, amt(Decimal::new(3, 0)))),
        Instruction::Withdrawal(Transaction::new(7, 3, amt(Decimal::new(25, 1)))),
        Instruction::Withdrawal(Transaction::new(7, 4, amt(Decimal::new(100, 0)))),
        Instruction::Dispute(Operation::new(7, 1)),
        Instruction::Dispute(Operation::new(7, 3)),
        Instruction::Resolve(Operation::new(7, 3)),
        Instruction::Resolve(Operation::new(7, 2)),
        Instruction::Chargeback(Operation::new(7, 1)),
        Instruction::Dispute(Operation::new(7, 99)),
        Instruction::Deposit(Transaction::new(7, 5, amt(Decimal::new(1, 3)))),
    ];
    for step in steps {
        let _ = account.apply(step);
        assert!(balanced(&account));
    }
    assert_eq!(dec(account.available()).to_string(), "0.501");
    assert_eq!(dec(account.held()).to_string(), "0.00");
    assert_eq!(dec(account.total()).to_string(), "0.501");
    assert!(account.locked());
}

#[test]
fn overdraft_changes_nothing_and_is_reported() {
    let mut account = Account::default();
    assert!(account.deposit(Transaction::new(1, 1, amt(Decimal::new(105, 1)))).is_ok());
    let data = Transaction::new(1, 2, amt(Decimal::new(1051, 2)));
    let r = account.withdrawal(data);
    match r {
        Err(TransactionSystemError::TransactionError { message, transaction }) => {
            assert_eq!(message, "attempt to withdraw more than available");
            assert_eq!(transaction, data);
        }
        _ => panic!("the overdraft was not refused as expected"),
    }
    assert_eq!(dec(account.available()).to_string(), "10.5");
    assert_eq!(dec(account.held()).to_string(), "0");
    assert_eq!(dec(account.total()).to_string(), "10.5");
    assert!(!account.locked());
    // No record was left: a dispute of the refused withdrawal is unknown.
    assert!(matches!(
        account.dispute(Operation::new(1, 2)),
        Err(TransactionSystemError::OperationError { .. })
    ));
}

#[test]
fn withdrawal_of_all_that_is_available_is_carried_out() {
    let mut account = Account::default();
    assert!(account.deposit(Transaction::new(1, 1, amt(Decimal::new(105, 1)))).is_ok());
    assert!(account.withdrawal(Transaction::new(1, 2, amt(Decimal::new(1050, 2)))).is_ok());
    assert_eq!(dec(account.available()).to_string(), "0.00");
    assert_eq!(dec(account.total()).to_string(), "0.00");
}

#[test]
fn disputed_withdrawal_moves_the_negated_amount() {
    let mut account = Account::default();
    assert!(account.deposit(Transaction::new(1, 1, whole(100))).is_ok());
    assert!(account.withdrawal(Transaction::new(1, 2, whole(30))).is_ok());
    assert!(account.dispute(Operation::new(1, 2)).is_ok());
    assert_eq!(dec(account.available()), Decimal::from_i32(100).unwrap());
    assert_eq!(dec(account.held()), Decimal::from_i32(-30).unwrap());
    assert_eq!(dec(account.total()), Decimal::from_i32(70).unwrap());
    assert!(account.resolve(Operation::new(1, 2)).is_ok());
    assert_eq!(dec(account.available()), Decimal::from_i32(70).unwrap());
    assert_eq!(dec(account.held()), Decimal::from_i32(0).unwrap());
}

#[test]
fn unknown_transaction_is_reported_and_changes_nothing() {
    let mut account = Account::default();
    assert!(account.deposit(Transaction::new(1, 1, whole(5))).is_ok());
    let texts = [
        "attempt to dispute non-existing transaction",
        "attempt to resolve non-existing transaction",
        "attempt to chargeback non-existing transaction",
    ];
    let operation = Operation::new(1, 2);
    let results = vec![
        account.dispute(operation),
        account.resolve(operation),
        account.chargeback(operation),
    ];
    for (r, text) in results.into_iter().zip(texts) {
        match r {
            Err(TransactionSystemError::OperationError { message, operation: about }) => {
                assert_eq!(message, text);
                assert_eq!(about, operation);
            }
            _ => panic!("the operation was not refused as expected"),
        }
    }
    assert_eq!(dec(account.available()), Decimal::from_i32(5).unwrap());
    assert_eq!(dec(account.held()), Decimal::from_i32(0).unwrap());
    assert_eq!(dec(account.total()), Decimal::from_i32(5).unwrap());
    assert!(!account.locked());
}

#[test]
fn second_dispute_is_refused_and_dispute_after_resolve_is_not() {
    let mut account = Account::default();
    assert!(account.deposit(Transaction::new(1, 1, whole(5))).is_ok());
    let operation = Operation::new(1, 1);
    assert!(account.dispute(operation).is_ok());
    match account.dispute(operation) {
        Err(TransactionSystemError::TransactionStateError { oldstate, newstate }) => {
            assert_eq!(oldstate, TransactionState::Disputed);
            assert_eq!(newstate, TransactionState::Disputed);
        }
        _ => panic!("the second dispute was not refused as expected"),
    }
    assert_eq!(dec(account.held()), Decimal::from_i32(5).unwrap());
    assert!(account.resolve(operation).is_ok());
    assert!(account.dispute(operation).is_ok());
    assert_eq!(dec(account.available()), Decimal::from_i32(0).unwrap());
    assert_eq!(dec(account.held()), Decimal::from_i32(5).unwrap());
    assert_eq!(dec(account.total()), Decimal::from_i32(5).unwrap());
}

#[test]
fn resolve_and_chargeback_need_an_open_dispute() {
    let mut account = Account::default();
    assert!(account.deposit(Transaction::new(1, 1, whole(5))).is_ok());
    let operation = Operation::new(1, 1);
    match account.resolve(operation) {
        Err(TransactionSystemError::TransactionStateError { oldstate, newstate }) => {
            assert_eq!(oldstate, TransactionState::Undisputed);
            assert_eq!(newstate, TransactionState::Resolved);
        }
        _ => panic!("the resolve was not refused as expected"),
    }
    match account.chargeback(operation) {
        Err(TransactionSystemError::TransactionStateError { oldstate, newstate }) => {
            assert_eq!(oldstate, TransactionState::Undisputed);
            assert_eq!(newstate, TransactionState::Chargedback);
        }
        _ => panic!("the chargeback was not refused as expected"),
    }
    assert_eq!(dec(account.available()), Decimal::from_i32(5).unwrap());
    assert_eq!(dec(account.held()), Decimal::from_i32(0).unwrap());
    assert!(!account.locked());
}

#[test]
fn chargeback_locks_for_good_and_ends_the_life_cycle() {
    let mut account = Account::default();
    assert!(account.deposit(Transaction::new(1, 1, whole(5))).is_ok());
    assert!(account.deposit(Transaction::new(1, 2, whole(7))).is_ok());
    let operation = Operation::new(1, 1);
    assert!(account.dispute(operation).is_ok());
    assert!(account.chargeback(operation).is_ok());
    assert!(account.locked());
    match account.dispute(operation) {
        Err(TransactionSystemError::TransactionStateError { oldstate, newstate }) => {
            assert_eq!(oldstate, TransactionState::Chargedback);
            assert_eq!(newstate, TransactionState::Disputed);
        }
        _ => panic!("the dispute was not refused as expected"),
    }
    assert!(account.resolve(operation).is_err());
    assert!(account.chargeback(operation).is_err());
    // A locked account still takes instructions, and stays locked.
    assert!(account.deposit(Transaction::new(1, 3, whole(1))).is_ok());
    assert!(account.withdrawal(Transaction::new(1, 4, whole(2))).is_ok());
    assert!(account.dispute(Operation::new(1, 2)).is_ok());
    assert!(account.resolve(Operation::new(1, 2)).is_ok());
    assert!(account.locked());
    assert_eq!(dec(account.available()), Decimal::from_i32(6).unwrap());
    assert_eq!(dec(account.total()), Decimal::from_i32(6).unwrap());
}

#[test]
fn later_deposit_replaces_the_record_of_the_same_id() {
    let mut account = Account::default();
    assert!(account.deposit(Transaction::new(1, 1, whole(5))).is_ok());
    assert!(account.deposit(Transaction::new(1, 1, whole(7))).is_ok());
    assert!(account.dispute(Operation::new(1, 1)).is_ok());
    assert_eq!(dec(account.available()), Decimal::from_i32(5).unwrap());
    assert_eq!(dec(account.held()), Decimal::from_i32(7).unwrap());
    assert_eq!(dec(account.total()), Decimal::from_i32(12).unwrap());
}

#[test]
fn balance_out_of_range_is_refused_and_changes_nothing() {
    let limit: i128 = 0x1_0000_0000_0000_0000_0000_0000;
    let most = Amount::new(limit - 1, 0).unwrap();
    let mut account = Account::default();
    assert!(account.deposit(Transaction::new(1, 1, most)).is_ok());
    let data = Transaction::new(1, 2, most);
    match account.deposit(data) {
        Err(TransactionSystemError::TransactionError { message, transaction }) => {
            assert_eq!(message, "balance out of range");
            assert_eq!(transaction, data);
        }
        _ => panic!("the deposit was not refused as expected"),
    }
    assert_eq!(account.available(), most);
    assert_eq!(account.total(), most);
    assert!(account.dispute(Operation::new(1, 2)).is_err());

    // Held funds at the limit cannot take another dispute.
    let mut account = Account::with_balances(Amount::zero(), most, most);
    assert!(account.deposit(Transaction::new(1, 3, whole(1))).is_err());
    let mut account = Account::with_balances(Amount::zero(), most, Amount::zero());
    assert!(account.deposit(Transaction::new(1, 3, whole(1))).is_ok());
    match account.dispute(Operation::new(1, 3)) {
        Err(TransactionSystemError::OperationError { message, operation }) => {
            assert_eq!(message, "balance out of range");
            assert_eq!(operation, Operation::new(1, 3));
        }
        _ => panic!("the dispute was not refused as expected"),
    }
    assert_eq!(dec(account.available()), Decimal::from_i32(1).unwrap());
    assert_eq!(account.held(), most);
    // The refused dispute left the record undisputed.
    assert!(matches!(
        account.resolve(Operation::new(1, 3)),
        Err(TransactionSystemError::TransactionStateError { .. })
    ));
}

#[test]
fn apply_dispatches_on_the_instruction() {
    let mut account = Account::default();
    assert!(account.apply(Instruction::Deposit(Transaction::new(1, 1, whole(9)))).is_ok());
    assert!(account.apply(Instruction::Withdrawal(Transaction::new(1, 2, whole(4)))).is_ok());
    assert!(account.apply(Instruction::Dispute(Operation::new(1, 1))).is_ok());
    assert_eq!(dec(account.available()), Decimal::from_i32(-4).unwrap());
    assert!(account.apply(Instruction::Resolve(Operation::new(1, 1))).is_ok());
    assert!(account.apply(Instruction::Dispute(Operation::new(1, 1))).is_ok());
    assert!(account.apply(Instruction::Chargeback(Operation::new(1, 1))).is_ok());
    assert_eq!(dec(account.available()), Decimal::from_i32(-4).unwrap());
    assert_eq!(dec(account.held()), Decimal::from_i32(0).unwrap());
    assert_eq!(dec(account.total()), Decimal::from_i32(-4).unwrap());
    assert!(account.locked());
}
