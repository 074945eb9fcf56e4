use std::collections::HashMap;
use vstd::prelude::*;

verus! {

/// Number of amount units in one whole currency unit: amounts carry four
/// decimal places.
pub const UNITS_PER_WHOLE: i64 = 10000;

/// The balances of one client, in ten-thousandths of a currency unit.
#[derive(Clone, Copy, Debug, PartialEq, Eq)]
pub struct Account {
    pub available: i64,
    pub held: i64,
    pub total: i64,
    pub locked: bool,
}

/// An accepted deposit or withdrawal that has not been closed yet.
#[derive(Clone, Copy, Debug, PartialEq, Eq)]
pub struct TXState {
    pub client: u16,
    pub amount: i64,
    pub disputed: bool,
}

/// Adds funds to the client's account.
#[derive(Clone, Copy, Debug, PartialEq, Eq)]
pub struct Deposit {
    pub client: u16,
    pub tx: u32,
    pub amount: i64,
}

/// Takes funds out of the client's account.
#[derive(Clone, Copy, Debug, PartialEq, Eq)]
pub struct Withdrawal {
    pub client: u16,
    pub tx: u32,
    pub amount: i64,
}

/// A claim against the earlier operation `tx`.
#[derive(Clone, Copy, Debug, PartialEq, Eq)]
pub struct Dispute {
    pub client: u16,
    pub tx: u32,
}

/// Settles the dispute of the earlier operation `tx` in the client's favour.
#[derive(Clone, Copy, Debug, PartialEq, Eq)]
pub struct Resolve {
    pub client: u16,
    pub tx: u32,
}

/// Settles the dispute of the earlier operation `tx` by taking the funds back.
#[derive(Clone, Copy, Debug, PartialEq, Eq)]
pub struct Chargeback {
    pub client: u16,
    pub tx: u32,
}

/// One operation of the log.
#[derive(Clone, Copy, Debug, PartialEq, Eq)]
pub enum TX {
    Deposit(Deposit),
    Withdrawal(Withdrawal),
    Dispute(Dispute),
    Resolve(Resolve),
    Chargeback(Chargeback),
}

/// Why an operation was turned down. Each variant carries the operation.
#[derive(Clone, Copy, Debug, PartialEq, Eq)]
pub enum TXError {
    AccountLocked(TX),
    AccountNotFound(TX),
    /// The record belongs to the client given first.
    ClientsDontMatch(u16, TX),
    /// The funds available, then the funds needed.
    NotEnoughFunds(i64, i64, TX),
    ParentTXAlreadyDisputed(TX),
    ParentTXNotDisputed(TX),
    ParentTXNotFound(TX),
}

/// A row of the log before its kind is known to be one of the five.
#[derive(Debug, PartialEq, Eq)]
pub struct Transaction {
    pub typ: String,
    pub client: u16,
    pub tx: u32,
    pub amount: Option<i64>,
}

/// Why a row could not be read as an operation.
#[derive(Clone, Copy, Debug, PartialEq, Eq)]
pub enum TXBuildError {
    InvalidTransaction,
}

/// The accounts, by client.
pub type Accounts = HashMap<u16, Account>;

/// The open records, by transaction id.
pub type Transactions = HashMap<u32, TXState>;

/// The five kinds of operation.
#[derive(Clone, Copy, Debug, PartialEq, Eq)]
pub enum TXType {
    Deposit,
    Withdrawal,
    Dispute,
    Resolve,
    Chargeback,
}

impl TXType {
    /// The lower-case name of the kind, as a sequence of characters.
    pub open spec fn name(self) -> Seq<char> {
        match self {
            TXType::Deposit => "deposit"@,
            TXType::Withdrawal => "withdrawal"@,
            TXType::Dispute => "dispute"@,
            TXType::Resolve => "resolve"@,
            TXType::Chargeback => "chargeback"@,
        }
    }

    /// The kind that bears the given name, if there is one.
    pub open spec fn named(name: Seq<char>) -> Option<TXType> {
        if name == TXType::Deposit.name() {
            Some(TXType::Deposit)
        } else if name == TXType::Withdrawal.name() {
            Some(TXType::Withdrawal)
        } else if name == TXType::Dispute.name() {
            Some(TXType::Dispute)
        } else if name == TXType::Resolve.name() {
            Some(TXType::Resolve)
        } else if name == TXType::Chargeback.name() {
            Some(TXType::Chargeback)
        } else {
            None
        }
    }

    /// The lower-case name of the kind.
    pub fn as_str(&self) -> (name: &'static str)
        ensures
            name@ == self.name(),
    {
        match self {
            TXType::Deposit => "deposit",
            TXType::Withdrawal => "withdrawal",
            TXType::Dispute => "dispute",
            TXType::Resolve => "resolve",
            TXType::Chargeback => "chargeback",
        }
    }

    /// Finds the kind by its name, which must match exactly.
    pub fn from_name(name: &str) -> (kind: Option<TXType>)
        ensures
            kind == TXType::named(name@),
    {
        if same_text(name, TXType::Deposit.as_str()) {
            Some(TXType::Deposit)
        } else if same_text(name, TXType::Withdrawal.as_str()) {
            Some(TXType::Withdrawal)
        } else if same_text(name, TXType::Dispute.as_str()) {
            Some(TXType::Dispute)
        } else if same_text(name, TXType::Resolve.as_str()) {
            Some(TXType::Resolve)
        } else if same_text(name, TXType::Chargeback.as_str()) {
            Some(TXType::Chargeback)
        } else {
            None
        }
    }
}

/// The five names differ from one another, so each kind is found again by its
/// name.
pub proof fn lemma_named_inverts_name(kind: TXType)
    ensures
        TXType::named(kind.name()) == Some(kind),
{
    reveal_strlit("deposit");
    reveal_strlit("withdrawal");
    reveal_strlit("dispute");
    reveal_strlit("resolve");
    reveal_strlit("chargeback");
    assert("deposit"@[0] == 'd' && "deposit"@[1] == 'e');
    assert("dispute"@[0] == 'd' && "dispute"@[1] == 'i');
    assert("resolve"@[0] == 'r');
    assert("withdrawal"@.len() == 10);
    assert("chargeback"@[0] == 'c');
}

/// Whether the two strings hold the same characters.
fn same_text(left: &str, right: &str) -> (same: bool)
    ensures
        same == (left@ == right@),
{
    let left_bytes = left.as_bytes();
    let right_bytes = right.as_bytes();
    if left_bytes.len() != right_bytes.len() {
        return false;
    }
    let mut at: usize = 0;
    while at < left_bytes.len()
        invariant
            left_bytes@ == vstd::utf8::encode_utf8(left@),
            right_bytes@ == vstd::utf8::encode_utf8(right@),
            left_bytes@.len() == right_bytes@.len(),
            at <= left_bytes@.len(),
            forall|i: int| 0 <= i < at ==> left_bytes@[i] == right_bytes@[i],
        decreases left_bytes@.len() - at,
    {
        if left_bytes[at] != right_bytes[at] {
            return false;
        }
        at += 1;
    }
    proof {
        assert(left_bytes@ =~= right_bytes@);
        vstd::utf8::encode_utf8_decode_utf8(left@);
        vstd::utf8::encode_utf8_decode_utf8(right@);
    }
    true
}

impl Transaction {
    /// A deposit or a withdrawal has to say how much.
    pub open spec fn complete(self) -> bool {
        TXType::named(self.typ@) == Some(TXType::Deposit) || TXType::named(self.typ@) == Some(
            TXType::Withdrawal,
        ) ==> self.amount is Some
    }
}

impl TX {
    /// The kind of the operation.
    pub open spec fn kind(self) -> TXType {
        match self {
            TX::Deposit(_) => TXType::Deposit,
            TX::Withdrawal(_) => TXType::Withdrawal,
            TX::Dispute(_) => TXType::Dispute,
            TX::Resolve(_) => TXType::Resolve,
            TX::Chargeback(_) => TXType::Chargeback,
        }
    }

    /// The operation that a row stands for: its kind is the one that the row
    /// names, and a dispute, resolve or chargeback drops the row's amount.
    pub open spec fn built_from(transaction: Transaction) -> Result<TX, TXBuildError> {
        let client = transaction.client;
        let tx = transaction.tx;
        match TXType::named(transaction.typ@) {
            Some(TXType::Deposit) => Ok(
                TX::Deposit(Deposit { client, tx, amount: transaction.amount->0 }),
            ),
            Some(TXType::Withdrawal) => Ok(
                TX::Withdrawal(Withdrawal { client, tx, amount: transaction.amount->0 }),
            ),
            Some(TXType::Dispute) => Ok(TX::Dispute(Dispute { client, tx })),
            Some(TXType::Resolve) => Ok(TX::Resolve(Resolve { client, tx })),
            Some(TXType::Chargeback) => Ok(TX::Chargeback(Chargeback { client, tx })),
            None => Err(TXBuildError::InvalidTransaction),
        }
    }

    /// Reads a row as an operation of the kind that it names, and fails where
    /// it names none of the five.
    pub fn from_transaction(transaction: Transaction) -> (result: Result<TX, TXBuildError>)
        requires
            transaction.complete(),
        ensures
            result == TX::built_from(transaction),
    {
        let client = transaction.client;
        let tx = transaction.tx;
        match TXType::from_name(transaction.typ.as_str()) {
            Some(TXType::Deposit) => Ok(
                TX::Deposit(Deposit { client, tx, amount: transaction.amount.unwrap() }),
            ),
            Some(TXType::Withdrawal) => Ok(
                TX::Withdrawal(Withdrawal { client, tx, amount: transaction.amount.unwrap() }),
            ),
            Some(TXType::Dispute) => Ok(TX::Dispute(Dispute { client, tx })),
            Some(TXType::Resolve) => Ok(TX::Resolve(Resolve { client, tx })),
            Some(TXType::Chargeback) => Ok(TX::Chargeback(Chargeback { client, tx })),
            None => Err(TXBuildError::InvalidTransaction),
        }
    }

    /// The lower-case name of the operation's kind.
    pub fn name(&self) -> (name: &'static str)
        ensures
            name@ == self.kind().name(),
    {
        match self {
            TX::Deposit(_) => TXType::Deposit.as_str(),
            TX::Withdrawal(_) => TXType::Withdrawal.as_str(),
            TX::Dispute(_) => TXType::Dispute.as_str(),
            TX::Resolve(_) => TXType::Resolve.as_str(),
            TX::Chargeback(_) => TXType::Chargeback.as_str(),
        }
    }
}

} // verus!
