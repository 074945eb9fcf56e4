use crate::laws::lemma_operation_keeps_balance;
use crate::model::{after, in_range, ledger_of, verdict};
use crate::types::{
    Account, Accounts, Chargeback, Deposit, Dispute, Resolve, TXError, TXState, Transactions,
    Withdrawal, TX,
};
use vstd::prelude::*;

verus! {

/// Credits the client's account, opening it if the client has none, and
/// records the deposit under its id.
pub fn deposit(op: Deposit, accounts: &mut Accounts, transactions: &mut Transactions) -> (result:
    Result<(), TXError>)
    requires
        in_range(TX::Deposit(op), ledger_of(*old(accounts), *old(transactions))),
    ensures
        result == verdict(TX::Deposit(op), ledger_of(*old(accounts), *old(transactions))),
        ledger_of(*final(accounts), *final(transactions)) == after(
            TX::Deposit(op),
            ledger_of(*old(accounts), *old(transactions)),
        ),
        result is Err ==> final(accounts)@ == old(accounts)@ && final(transactions)@ == old(
            transactions,
        )@,
        ledger_of(*old(accounts), *old(transactions)).balanced() ==> ledger_of(
            *final(accounts),
            *final(transactions),
        ).balanced(),
{
    proof {
        if ledger_of(*old(accounts), *old(transactions)).balanced() {
            lemma_operation_keeps_balance(
                TX::Deposit(op),
                ledger_of(*old(accounts), *old(transactions)),
            );
        }
    }
    let account = match accounts.get(&op.client) {
        Some(found) => *found,
        None => Account { available: 0, held: 0, total: 0, locked: false },
    };
    if account.locked {
        return Err(TXError::AccountLocked(TX::Deposit(op)));
    }
    accounts.insert(
        op.client,
        Account {
            available: account.available + op.amount,
            held: account.held,
            total: account.total + op.amount,
            locked: account.locked,
        },
    );
    transactions.insert(
        op.tx,
        TXState { client: op.client, amount: op.amount, disputed: false },
    );
    Ok(())
}

/// Debits the client's account, if it holds enough available funds, and
/// records the withdrawal under its id.
pub fn withdraw(op: Withdrawal, accounts: &mut Accounts, transactions: &mut Transactions) -> (result:
    Result<(), TXError>)
    requires
        in_range(TX::Withdrawal(op), ledger_of(*old(accounts), *old(transactions))),
    ensures
        result == verdict(TX::Withdrawal(op), ledger_of(*old(accounts), *old(transactions))),
        ledger_of(*final(accounts), *final(transactions)) == after(
            TX::Withdrawal(op),
            ledger_of(*old(accounts), *old(transactions)),
        ),
        result is Err ==> final(accounts)@ == old(accounts)@ && final(transactions)@ == old(
            transactions,
        )@,
        ledger_of(*old(accounts), *old(transactions)).balanced() ==> ledger_of(
            *final(accounts),
            *final(transactions),
        ).balanced(),
{
    proof {
        if ledger_of(*old(accounts), *old(transactions)).balanced() {
            lemma_operation_keeps_balance(
                TX::Withdrawal(op),
                ledger_of(*old(accounts), *old(transactions)),
            );
        }
    }
    let account = match accounts.get(&op.client) {
        Some(found) => *found,
        None => return Err(TXError::AccountNotFound(TX::Withdrawal(op))),
    };
    if account.locked {
        return Err(TXError::AccountLocked(TX::Withdrawal(op)));
    }
    if account.available < op.amount {
        return Err(TXError::NotEnoughFunds(account.available, op.amount, TX::Withdrawal(op)));
    }
    accounts.insert(
        op.client,
        Account {
            available: account.available - op.amount,
            held: account.held,
            total: account.total - op.amount,
            locked: account.locked,
        },
    );
    transactions.insert(
        op.tx,
        TXState { client: op.client, amount: op.amount, disputed: false },
    );
    Ok(())
}

/// Opens a dispute of the operation `op.tx`: its amount moves from the
/// client's available funds to the held funds.
pub fn dispute(op: Dispute, accounts: &mut Accounts, transactions: &mut Transactions) -> (result:
    Result<(), TXError>)
    requires
        in_range(TX::Dispute(op), ledger_of(*old(accounts), *old(transactions))),
    ensures
        result == verdict(TX::Dispute(op), ledger_of(*old(accounts), *old(transactions))),
        ledger_of(*final(accounts), *final(transactions)) == after(
            TX::Dispute(op),
            ledger_of(*old(accounts), *old(transactions)),
        ),
        result is Err ==> final(accounts)@ == old(accounts)@ && final(transactions)@ == old(
            transactions,
        )@,
        ledger_of(*old(accounts), *old(transactions)).balanced() ==> ledger_of(
            *final(accounts),
            *final(transactions),
        ).balanced(),
{
    proof {
        if ledger_of(*old(accounts), *old(transactions)).balanced() {
            lemma_operation_keeps_balance(
                TX::Dispute(op),
                ledger_of(*old(accounts), *old(transactions)),
            );
        }
    }
    let record = match transactions.get(&op.tx) {
        Some(found) => *found,
        None => return Err(TXError::ParentTXNotFound(TX::Dispute(op))),
    };
    let account = match accounts.get(&record.client) {
        Some(found) => *found,
        None => return Err(TXError::AccountNotFound(TX::Dispute(op))),
    };
    if op.client != record.client {
        return Err(TXError::ClientsDontMatch(record.client, TX::Dispute(op)));
    }
    if account.locked {
        return Err(TXError::AccountLocked(TX::Dispute(op)));
    }
    if record.disputed {
        return Err(TXError::ParentTXAlreadyDisputed(TX::Dispute(op)));
    }
    if account.available < record.amount {
        return Err(TXError::NotEnoughFunds(account.available, record.amount, TX::Dispute(op)));
    }
    accounts.insert(
        record.client,
        Account {
            available: account.available - record.amount,
            held: account.held + record.amount,
            total: account.total,
            locked: account.locked,
        },
    );
    transactions.insert(
        op.tx,
        TXState { client: record.client, amount: record.amount, disputed: true },
    );
    Ok(())
}

/// Closes the dispute of the operation `op.tx` in the client's favour: its
/// amount moves back from the held funds to the available funds.
pub fn resolve(op: Resolve, accounts: &mut Accounts, transactions: &mut Transactions) -> (result:
    Result<(), TXError>)
    requires
        in_range(TX::Resolve(op), ledger_of(*old(accounts), *old(transactions))),
    ensures
        result == verdict(TX::Resolve(op), ledger_of(*old(accounts), *old(transactions))),
        ledger_of(*final(accounts), *final(transactions)) == after(
            TX::Resolve(op),
            ledger_of(*old(accounts), *old(transactions)),
        ),
        result is Err ==> final(accounts)@ == old(accounts)@ && final(transactions)@ == old(
            transactions,
        )@,
        ledger_of(*old(accounts), *old(transactions)).balanced() ==> ledger_of(
            *final(accounts),
            *final(transactions),
        ).balanced(),
{
    proof {
        if ledger_of(*old(accounts), *old(transactions)).balanced() {
            lemma_operation_keeps_balance(
                TX::Resolve(op),
                ledger_of(*old(accounts), *old(transactions)),
            );
        }
    }
    let record = match transactions.get(&op.tx) {
        Some(found) => *found,
        None => return Err(TXError::ParentTXNotFound(TX::Resolve(op))),
    };
    if op.client != record.client {
        return Err(TXError::ClientsDontMatch(record.client, TX::Resolve(op)));
    }
    let account = match accounts.get(&op.client) {
        Some(found) => *found,
        None => return Err(TXError::AccountNotFound(TX::Resolve(op))),
    };
    if account.locked {
        return Err(TXError::AccountLocked(TX::Resolve(op)));
    }
    if !record.disputed {
        return Err(TXError::ParentTXNotDisputed(TX::Resolve(op)));
    }
    accounts.insert(
        op.client,
        Account {
            available: account.available + record.amount,
            held: account.held - record.amount,
            total: account.total,
            locked: account.locked,
        },
    );
    transactions.remove(&op.tx);
    Ok(())
}

/// Closes the dispute of the operation `op.tx` against the client: its amount
/// leaves the held and total funds, and the account is locked for good.
pub fn chargeback(op: Chargeback, accounts: &mut Accounts, transactions: &mut Transactions) -> (result:
    Result<(), TXError>)
    requires
        in_range(TX::Chargeback(op), ledger_of(*old(accounts), *old(transactions))),
    ensures
        result == verdict(TX::Chargeback(op), ledger_of(*old(accounts), *old(transactions))),
        ledger_of(*final(accounts), *final(transactions)) == after(
            TX::Chargeback(op),
            ledger_of(*old(accounts), *old(transactions)),
        ),
        result is Err ==> final(accounts)@ == old(accounts)@ && final(transactions)@ == old(
            transactions,
        )@,
        ledger_of(*old(accounts), *old(transactions)).balanced() ==> ledger_of(
            *final(accounts),
            *final(transactions),
        ).balanced(),
{
    proof {
        if ledger_of(*old(accounts), *old(transactions)).balanced() {
            lemma_operation_keeps_balance(
                TX::Chargeback(op),
                ledger_of(*old(accounts), *old(transactions)),
            );
        }
    }
    let record = match transactions.get(&op.tx) {
        Some(found) => *found,
        None => return Err(TXError::ParentTXNotFound(TX::Chargeback(op))),
    };
    if op.client != record.client {
        return Err(TXError::ClientsDontMatch(record.client, TX::Chargeback(op)));
    }
    let account = match accounts.get(&op.client) {
        Some(found) => *found,
        None => return Err(TXError::AccountNotFound(TX::Chargeback(op))),
    };
    if account.locked {
        return Err(TXError::AccountLocked(TX::Chargeback(op)));
    }
    if !record.disputed {
        return Err(TXError::ParentTXNotDisputed(TX::Chargeback(op)));
    }
    accounts.insert(
        op.client,
        Account {
            available: account.available,
            held: account.held - record.amount,
            total: account.total - record.amount,
            locked: true,
        },
    );
    transactions.remove(&op.tx);
    Ok(())
}

} // verus!
