use transaction_processor::types::{
    Chargeback, Deposit, Dispute, Resolve, TXBuildError, TXType, Transaction, Withdrawal, TX,
};

/// An amount written in whole currency units, as the ledger holds it.
fn units(amount: f64) -> i64 {
    (amount * 10000.0).round() as i64
}

#[test]
fn test_name() {
    assert_eq!(
        TX::Deposit(Deposit {
            client: 1,
            tx: 1,
            amount: units(0.0001)
        })
        .name(),
        "deposit"
    );
    assert_eq!(
        TX::Withdrawal(Withdrawal {
            client: 1,
            tx: 1,
            amount: units(0.0001)
        })
        .name(),
        "withdrawal"
    );
    assert_eq!(TX::Dispute(Dispute { client: 1, tx: 1 }).name(), "dispute");
    assert_eq!(TX::Resolve(Resolve { client: 1, tx: 1 }).name(), "resolve");
    assert_eq!(
        TX::Chargeback(Chargeback { client: 1, tx: 1 }).name(),
        "chargeback"
    );
}

fn row(typ: &str, amount: Option<i64>) -> Transaction {
    Transaction {
        typ: typ.to_string(),
        client: 7,
        tx: 42,
        amount,
    }
}

#[test]
fn as_str_gives_the_lower_case_names() {
    assert_eq!(TXType::Deposit.as_str(), "deposit");
    assert_eq!(TXType::Withdrawal.as_str(), "withdrawal");
    assert_eq!(TXType::Dispute.as_str(), "dispute");
    assert_eq!(TXType::Resolve.as_str(), "resolve");
    assert_eq!(TXType::Chargeback.as_str(), "chargeback");
}

#[test]
fn from_name_inverts_as_str() {
    let kinds = [
        TXType::Deposit,
        TXType::Withdrawal,
        TXType::Dispute,
        TXType::Resolve,
        TXType::Chargeback,
    ];
    for kind in kinds {
        assert_eq!(TXType::from_name(kind.as_str()), Some(kind));
    }
}

#[test]
fn from_name_matches_exactly() {
    assert_eq!(TXType::from_name(""), None);
    assert_eq!(TXType::from_name("Deposit"), None);
    assert_eq!(TXType::from_name("deposit "), None);
    assert_eq!(TXType::from_name("deposi"), None);
    assert_eq!(TXType::from_name("deposits"), None);
    assert_eq!(TXType::from_name("chargebac\u{212a}"), None);
    assert_eq!(TXType::from_name("refund"), None);
}

#[test]
fn from_transaction_builds_a_deposit() {
    assert_eq!(
        TX::from_transaction(row("deposit", Some(units(2500.1234)))),
        Ok(TX::Deposit(Deposit {
            client: 7,
            tx: 42,
            amount: 25001234
        }))
    );
}

#[test]
fn from_transaction_builds_a_withdrawal() {
    assert_eq!(
        TX::from_transaction(row("withdrawal", Some(units(1.0)))),
        Ok(TX::Withdrawal(Withdrawal {
            client: 7,
            tx: 42,
            amount: 10000
        }))
    );
}

#[test]
fn from_transaction_builds_the_dispute_kinds_without_amount() {
    assert_eq!(
        TX::from_transaction(row("dispute", None)),
        Ok(TX::Dispute(Dispute { client: 7, tx: 42 }))
    );
    assert_eq!(
        TX::from_transaction(row("resolve", None)),
        Ok(TX::Resolve(Resolve { client: 7, tx: 42 }))
    );
    assert_eq!(
        TX::from_transaction(row("chargeback", None)),
        Ok(TX::Chargeback(Chargeback { client: 7, tx: 42 }))
    );
}

#[test]
fn from_transaction_drops_the_amount_of_a_dispute() {
    assert_eq!(
        TX::from_transaction(row("dispute", Some(units(1.0)))),
        Ok(TX::Dispute(Dispute { client: 7, tx: 42 }))
    );
}

#[test]
fn from_transaction_rejects_an_unknown_kind() {
    assert_eq!(
        TX::from_transaction(row("refund", Some(units(1.0)))),
        Err(TXBuildError::InvalidTransaction)
    );
    assert_eq!(
        TX::from_transaction(row("DEPOSIT", Some(units(1.0)))),
        Err(TXBuildError::InvalidTransaction)
    );
    assert_eq!(
        TX::from_transaction(row("", None)),
        Err(TXBuildError::InvalidTransaction)
    );
}

#[test]
fn name_agrees_with_the_kind_that_was_built() {
    for kind in ["deposit", "withdrawal", "dispute", "resolve", "chargeback"] {
        let built = TX::from_transaction(row(kind, Some(1))).unwrap();
        assert_eq!(built.name(), kind);
    }
}
