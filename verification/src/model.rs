use crate::types::{
    Account, Accounts, Chargeback, Deposit, Dispute, Resolve, TXError, TXState, Transactions,
    Withdrawal, TX,
};
use vstd::prelude::*;

verus! {

/// What the engine works on: the accounts by client and the open records by
/// transaction id.
pub struct Ledger {
    pub accounts: Map<u16, Account>,
    pub records: Map<u32, TXState>,
}

/// The ledger held in the two maps.
pub open spec fn ledger_of(accounts: Accounts, transactions: Transactions) -> Ledger {
    Ledger { accounts: accounts@, records: transactions@ }
}

/// Whether a balance can be stored.
pub open spec fn fits(balance: int) -> bool {
    i64::MIN <= balance <= i64::MAX
}

impl Account {
    /// The account a client starts with.
    pub open spec fn opened() -> Account {
        Account { available: 0, held: 0, total: 0, locked: false }
    }

    /// The total is the sum of the available and the held funds.
    pub open spec fn balanced(self) -> bool {
        self.total == self.available + self.held
    }
}

impl TXState {
    /// The record of an operation that was just accepted.
    pub open spec fn opened(client: u16, amount: i64) -> TXState {
        TXState { client, amount, disputed: false }
    }
}

impl Ledger {
    /// The ledger before the first operation.
    pub open spec fn empty() -> Ledger {
        Ledger { accounts: Map::empty(), records: Map::empty() }
    }

    /// The client's account, or a fresh one if the client has none.
    pub open spec fn account_or_new(self, client: u16) -> Account {
        if self.accounts.contains_key(client) {
            self.accounts[client]
        } else {
            Account::opened()
        }
    }

    /// Every account's total is the sum of its available and held funds.
    pub open spec fn balanced(self) -> bool {
        forall|client: u16|
            self.accounts.contains_key(client) ==> (#[trigger] self.accounts[client]).balanced()
    }
}

/// Why a deposit is turned down, if it is.
pub open spec fn deposit_rejection(op: Deposit, ledger: Ledger) -> Option<TXError> {
    if ledger.account_or_new(op.client).locked {
        Some(TXError::AccountLocked(TX::Deposit(op)))
    } else {
        None
    }
}

/// An accepted deposit adds its amount to the available and total funds of the
/// client's account, which it opens if need be, and records the operation
/// under its id, in place of any record that was there.
pub open spec fn deposit_effect(op: Deposit, ledger: Ledger) -> Ledger {
    let account = ledger.account_or_new(op.client);
    Ledger {
        accounts: ledger.accounts.insert(
            op.client,
            Account {
                available: (account.available + op.amount) as i64,
                held: account.held,
                total: (account.total + op.amount) as i64,
                locked: account.locked,
            },
        ),
        records: ledger.records.insert(op.tx, TXState::opened(op.client, op.amount)),
    }
}

/// An accepted deposit must leave balances that can be stored.
pub open spec fn deposit_in_range(op: Deposit, ledger: Ledger) -> bool {
    let account = ledger.account_or_new(op.client);
    deposit_rejection(op, ledger) is None ==> fits(account.available + op.amount) && fits(
        account.total + op.amount,
    )
}

/// Why a withdrawal is turned down, if it is.
pub open spec fn withdraw_rejection(op: Withdrawal, ledger: Ledger) -> Option<TXError> {
    if !ledger.accounts.contains_key(op.client) {
        Some(TXError::AccountNotFound(TX::Withdrawal(op)))
    } else {
        let account = ledger.accounts[op.client];
        if account.locked {
            Some(TXError::AccountLocked(TX::Withdrawal(op)))
        } else if account.available < op.amount {
            Some(TXError::NotEnoughFunds(account.available, op.amount, TX::Withdrawal(op)))
        } else {
            None
        }
    }
}

/// An accepted withdrawal takes its amount from the available and total funds
/// and records the operation under its id.
pub open spec fn withdraw_effect(op: Withdrawal, ledger: Ledger) -> Ledger {
    let account = ledger.accounts[op.client];
    Ledger {
        accounts: ledger.accounts.insert(
            op.client,
            Account {
                available: (account.available - op.amount) as i64,
                held: account.held,
                total: (account.total - op.amount) as i64,
                locked: account.locked,
            },
        ),
        records: ledger.records.insert(op.tx, TXState::opened(op.client, op.amount)),
    }
}

/// An accepted withdrawal must leave balances that can be stored.
pub open spec fn withdraw_in_range(op: Withdrawal, ledger: Ledger) -> bool {
    let account = ledger.accounts[op.client];
    withdraw_rejection(op, ledger) is None ==> fits(account.available - op.amount) && fits(
        account.total - op.amount,
    )
}

/// Why a dispute is turned down, if it is.
pub open spec fn dispute_rejection(op: Dispute, ledger: Ledger) -> Option<TXError> {
    if !ledger.records.contains_key(op.tx) {
        Some(TXError::ParentTXNotFound(TX::Dispute(op)))
    } else {
        let record = ledger.records[op.tx];
        if !ledger.accounts.contains_key(record.client) {
            Some(TXError::AccountNotFound(TX::Dispute(op)))
        } else {
            let account = ledger.accounts[record.client];
            if op.client != record.client {
                Some(TXError::ClientsDontMatch(record.client, TX::Dispute(op)))
            } else if account.locked {
                Some(TXError::AccountLocked(TX::Dispute(op)))
            } else if record.disputed {
                Some(TXError::ParentTXAlreadyDisputed(TX::Dispute(op)))
            } else if account.available < record.amount {
                Some(TXError::NotEnoughFunds(account.available, record.amount, TX::Dispute(op)))
            } else {
                None
            }
        }
    }
}

/// An accepted dispute moves the record's amount from available to held and
/// marks the record.
pub open spec fn dispute_effect(op: Dispute, ledger: Ledger) -> Ledger {
    let record = ledger.records[op.tx];
    let account = ledger.accounts[record.client];
    Ledger {
        accounts: ledger.accounts.insert(
            record.client,
            Account {
                available: (account.available - record.amount) as i64,
                held: (account.held + record.amount) as i64,
                total: account.total,
                locked: account.locked,
            },
        ),
        records: ledger.records.insert(
            op.tx,
            TXState { client: record.client, amount: record.amount, disputed: true },
        ),
    }
}

/// An accepted dispute must leave balances that can be stored.
pub open spec fn dispute_in_range(op: Dispute, ledger: Ledger) -> bool {
    let record = ledger.records[op.tx];
    let account = ledger.accounts[record.client];
    dispute_rejection(op, ledger) is None ==> fits(account.available - record.amount) && fits(
        account.held + record.amount,
    )
}

/// Why the closing of a dispute is turned down, if it is. Resolve and
/// chargeback share these checks; `tx` is the operation that the error carries.
/// Whose record it is comes first: a client other than the owner is told so
/// whether or not that client has an account.
pub open spec fn closing_rejection(client: u16, parent: u32, tx: TX, ledger: Ledger) -> Option<
    TXError,
> {
    if !ledger.records.contains_key(parent) {
        Some(TXError::ParentTXNotFound(tx))
    } else {
        let record = ledger.records[parent];
        if client != record.client {
            Some(TXError::ClientsDontMatch(record.client, tx))
        } else if !ledger.accounts.contains_key(client) {
            Some(TXError::AccountNotFound(tx))
        } else if ledger.accounts[client].locked {
            Some(TXError::AccountLocked(tx))
        } else if !record.disputed {
            Some(TXError::ParentTXNotDisputed(tx))
        } else {
            None
        }
    }
}

/// Why a resolve is turned down, if it is.
pub open spec fn resolve_rejection(op: Resolve, ledger: Ledger) -> Option<TXError> {
    closing_rejection(op.client, op.tx, TX::Resolve(op), ledger)
}

/// An accepted resolve moves the record's amount back from held to available
/// and closes the record.
pub open spec fn resolve_effect(op: Resolve, ledger: Ledger) -> Ledger {
    let record = ledger.records[op.tx];
    let account = ledger.accounts[op.client];
    Ledger {
        accounts: ledger.accounts.insert(
            op.client,
            Account {
                available: (account.available + record.amount) as i64,
                held: (account.held - record.amount) as i64,
                total: account.total,
                locked: account.locked,
            },
        ),
        records: ledger.records.remove(op.tx),
    }
}

/// An accepted resolve must leave balances that can be stored.
pub open spec fn resolve_in_range(op: Resolve, ledger: Ledger) -> bool {
    let record = ledger.records[op.tx];
    let account = ledger.accounts[op.client];
    resolve_rejection(op, ledger) is None ==> fits(account.available + record.amount) && fits(
        account.held - record.amount,
    )
}

/// Why a chargeback is turned down, if it is.
pub open spec fn chargeback_rejection(op: Chargeback, ledger: Ledger) -> Option<TXError> {
    closing_rejection(op.client, op.tx, TX::Chargeback(op), ledger)
}

/// An accepted chargeback takes the record's amount out of the held and total
/// funds, locks the account and closes the record.
pub open spec fn chargeback_effect(op: Chargeback, ledger: Ledger) -> Ledger {
    let record = ledger.records[op.tx];
    let account = ledger.accounts[op.client];
    Ledger {
        accounts: ledger.accounts.insert(
            op.client,
            Account {
                available: account.available,
                held: (account.held - record.amount) as i64,
                total: (account.total - record.amount) as i64,
                locked: true,
            },
        ),
        records: ledger.records.remove(op.tx),
    }
}

/// An accepted chargeback must leave balances that can be stored.
pub open spec fn chargeback_in_range(op: Chargeback, ledger: Ledger) -> bool {
    let record = ledger.records[op.tx];
    let account = ledger.accounts[op.client];
    chargeback_rejection(op, ledger) is None ==> fits(account.held - record.amount) && fits(
        account.total - record.amount,
    )
}

/// Why the operation is turned down, if it is.
pub open spec fn rejection(tx: TX, ledger: Ledger) -> Option<TXError> {
    match tx {
        TX::Deposit(op) => deposit_rejection(op, ledger),
        TX::Withdrawal(op) => withdraw_rejection(op, ledger),
        TX::Dispute(op) => dispute_rejection(op, ledger),
        TX::Resolve(op) => resolve_rejection(op, ledger),
        TX::Chargeback(op) => chargeback_rejection(op, ledger),
    }
}

/// The ledger that the operation leaves, provided it is accepted.
pub open spec fn effect(tx: TX, ledger: Ledger) -> Ledger {
    match tx {
        TX::Deposit(op) => deposit_effect(op, ledger),
        TX::Withdrawal(op) => withdraw_effect(op, ledger),
        TX::Dispute(op) => dispute_effect(op, ledger),
        TX::Resolve(op) => resolve_effect(op, ledger),
        TX::Chargeback(op) => chargeback_effect(op, ledger),
    }
}

/// Whether the balances that the operation leaves can be stored.
pub open spec fn in_range(tx: TX, ledger: Ledger) -> bool {
    match tx {
        TX::Deposit(op) => deposit_in_range(op, ledger),
        TX::Withdrawal(op) => withdraw_in_range(op, ledger),
        TX::Dispute(op) => dispute_in_range(op, ledger),
        TX::Resolve(op) => resolve_in_range(op, ledger),
        TX::Chargeback(op) => chargeback_in_range(op, ledger),
    }
}

/// What the engine answers to the operation.
pub open spec fn verdict(tx: TX, ledger: Ledger) -> Result<(), TXError> {
    match rejection(tx, ledger) {
        Some(error) => Err(error),
        None => Ok(()),
    }
}

/// The ledger after the operation: a rejected operation changes nothing.
pub open spec fn after(tx: TX, ledger: Ledger) -> Ledger {
    if rejection(tx, ledger) is None {
        effect(tx, ledger)
    } else {
        ledger
    }
}

/// The ledger after the operations, taken in order.
pub open spec fn replay(ops: Seq<TX>, ledger: Ledger) -> Ledger
    decreases ops.len(),
{
    if ops.len() == 0 {
        ledger
    } else {
        replay(ops.drop_first(), after(ops[0], ledger))
    }
}

/// Whether each operation of the run, at its turn, leaves balances that can be
/// stored.
pub open spec fn replay_in_range(ops: Seq<TX>, ledger: Ledger) -> bool
    decreases ops.len(),
{
    ops.len() == 0 || (in_range(ops[0], ledger) && replay_in_range(
        ops.drop_first(),
        after(ops[0], ledger),
    ))
}

} // verus!
