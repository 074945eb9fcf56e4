use transaction_processor::process_transaction::process_transaction;
use transaction_processor::types::{
    Accounts, Chargeback, Deposit, Dispute, Resolve, Transactions, Withdrawal, TX,
};

/// An amount written in whole currency units, as the ledger holds it.
fn units(amount: f64) -> i64 {
    (amount * 10000.0).round() as i64
}

#[test]
fn test_process_transaction() {
    let mut accounts = Accounts::new();
    let mut transactions = Transactions::new();

    let transaction = TX::Deposit(Deposit {
        client: 1,
        tx: 1,
        amount: units(1.0),
    });
    process_transaction(transaction, &mut accounts, &mut transactions).unwrap();
    assert_eq!(accounts.get(&1).unwrap().available, units(1.0));
    assert_eq!(accounts.get(&1).unwrap().held, units(0.0));
    assert_eq!(accounts.get(&1).unwrap().total, units(1.0));
    assert_eq!(accounts.get(&1).unwrap().locked, false);

    let transaction = TX::Deposit(Deposit {
        client: 1,
        tx: 2,
        amount: units(1.0),
    });
    process_transaction(transaction, &mut accounts, &mut transactions).unwrap();
    assert_eq!(accounts.get(&1).unwrap().available, units(2.0));
    assert_eq!(accounts.get(&1).unwrap().held, units(0.0));
    assert_eq!(accounts.get(&1).unwrap().total, units(2.0));
    assert_eq!(accounts.get(&1).unwrap().locked, false);

    let transaction = TX::Withdrawal(Withdrawal {
        client: 1,
        tx: 3,
        amount: units(0.5),
    });
    process_transaction(transaction, &mut accounts, &mut transactions).unwrap();
    assert_eq!(accounts.get(&1).unwrap().available, units(1.5));
    assert_eq!(accounts.get(&1).unwrap().held, units(0.0));
    assert_eq!(accounts.get(&1).unwrap().total, units(1.5));
    assert_eq!(accounts.get(&1).unwrap().locked, false);

    let transaction = TX::Dispute(Dispute { client: 1, tx: 1 });
    process_transaction(transaction, &mut accounts, &mut transactions).unwrap();
    assert_eq!(accounts.get(&1).unwrap().available, units(0.5));
    assert_eq!(accounts.get(&1).unwrap().held, units(1.0));
    assert_eq!(accounts.get(&1).unwrap().total, units(1.5));
    assert_eq!(accounts.get(&1).unwrap().locked, false);

    let transaction = TX::Resolve(Resolve { client: 1, tx: 1 });
    process_transaction(transaction, &mut accounts, &mut transactions).unwrap();
    assert_eq!(accounts.get(&1).unwrap().available, units(1.5));
    assert_eq!(accounts.get(&1).unwrap().held, units(0.0));
    assert_eq!(accounts.get(&1).unwrap().total, units(1.5));
    assert_eq!(accounts.get(&1).unwrap().locked, false);

    let transaction = TX::Dispute(Dispute { client: 1, tx: 2 });
    process_transaction(transaction, &mut accounts, &mut transactions).unwrap();
    assert_eq!(accounts.get(&1).unwrap().available, units(0.5));
    assert_eq!(accounts.get(&1).unwrap().held, units(1.0));
    assert_eq!(accounts.get(&1).unwrap().total, units(1.5));
    assert_eq!(accounts.get(&1).unwrap().locked, false);

    let transaction = TX::Chargeback(Chargeback { client: 1, tx: 2 });
    process_transaction(transaction, &mut accounts, &mut transactions).unwrap();
    assert_eq!(accounts.get(&1).unwrap().available, units(0.5));
    assert_eq!(accounts.get(&1).unwrap().held, units(0.0));
    assert_eq!(accounts.get(&1).unwrap().total, units(0.5));
    assert_eq!(accounts.get(&1).unwrap().locked, true);
}
