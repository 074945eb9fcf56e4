use crate::model::{after, fits, in_range, ledger_of, verdict};
use crate::transactions::{chargeback, deposit, dispute, resolve, withdraw};
use crate::types::{Accounts, TXError, Transactions, TX};
use vstd::prelude::*;

verus! {

/// Hands the operation to the handler of its kind and returns the handler's
/// answer.
pub fn process_transaction(
    transaction: TX,
    accounts: &mut Accounts,
    transactions: &mut Transactions,
) -> (result: Result<(), TXError>)
    requires
        in_range(transaction, ledger_of(*old(accounts), *old(transactions))),
    ensures
        result == verdict(transaction, ledger_of(*old(accounts), *old(transactions))),
        ledger_of(*final(accounts), *final(transactions)) == after(
            transaction,
            ledger_of(*old(accounts), *old(transactions)),
        ),
        result is Err ==> final(accounts)@ == old(accounts)@ && final(transactions)@ == old(
            transactions,
        )@,
        ledger_of(*old(accounts), *old(transactions)).balanced() ==> ledger_of(
            *final(accounts),
            *final(transactions),
        ).balanced(),
{
    match transaction {
        TX::Deposit(operation) => deposit(operation, accounts, transactions),
        TX::Withdrawal(operation) => withdraw(operation, accounts, transactions),
        TX::Dispute(operation) => dispute(operation, accounts, transactions),
        TX::Resolve(operation) => resolve(operation, accounts, transactions),
        TX::Chargeback(operation) => chargeback(operation, accounts, transactions),
    }
}

/// Whether the balance can take the amount.
fn sum_fits(balance: i64, amount: i64) -> (ok: bool)
    ensures
        ok == fits(balance + amount),
{
    balance.checked_add(amount).is_some()
}

/// Whether the balance can give the amount.
fn difference_fits(balance: i64, amount: i64) -> (ok: bool)
    ensures
        ok == fits(balance - amount),
{
    balance.checked_sub(amount).is_some()
}

/// Tells whether `process_transaction` may be called: whether the operation,
/// if the ledger accepts it, leaves balances that can be stored.
pub fn within_range(transaction: &TX, accounts: &Accounts, transactions: &Transactions) -> (ok:
    bool)
    ensures
        ok == in_range(*transaction, ledger_of(*accounts, *transactions)),
{
    match transaction {
        TX::Deposit(op) => match accounts.get(&op.client) {
            Some(account) => account.locked || (sum_fits(account.available, op.amount)
                && sum_fits(account.total, op.amount)),
            None => true,
        },
        TX::Withdrawal(op) => match accounts.get(&op.client) {
            Some(account) => account.locked || account.available < op.amount || (difference_fits(
                account.available,
                op.amount,
            ) && difference_fits(account.total, op.amount)),
            None => true,
        },
        TX::Dispute(op) => match transactions.get(&op.tx) {
            Some(record) => match accounts.get(&record.client) {
                Some(account) => op.client != record.client || account.locked || record.disputed
                    || account.available < record.amount || (difference_fits(
                    account.available,
                    record.amount,
                ) && sum_fits(account.held, record.amount)),
                None => true,
            },
            None => true,
        },
        TX::Resolve(op) => match transactions.get(&op.tx) {
            Some(record) => match accounts.get(&op.client) {
                Some(account) => op.client != record.client || account.locked || !record.disputed
                    || (sum_fits(account.available, record.amount) && difference_fits(
                    account.held,
                    record.amount,
                )),
                None => true,
            },
            None => true,
        },
        TX::Chargeback(op) => match transactions.get(&op.tx) {
            Some(record) => match accounts.get(&op.client) {
                Some(account) => op.client != record.client || account.locked || !record.disputed
                    || (difference_fits(account.held, record.amount) && difference_fits(
                    account.total,
                    record.amount,
                )),
                None => true,
            },
            None => true,
        },
    }
}

} // verus!
