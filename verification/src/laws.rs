use crate::model::{after, in_range, rejection, replay, replay_in_range, Ledger};
use crate::types::{Chargeback, Dispute, Resolve, TXError, TX};
use vstd::prelude::*;

verus! {

/// An operation that is accepted within range keeps every account balanced;
/// one that is rejected does so too, since it changes nothing.
pub proof fn lemma_operation_keeps_balance(tx: TX, ledger: Ledger)
    requires
        ledger.balanced(),
        in_range(tx, ledger),
    ensures
        after(tx, ledger).balanced(),
{
}

/// However many operations are replayed, within range, on a balanced ledger,
/// every account stays balanced.
pub proof fn lemma_replay_keeps_balance(ops: Seq<TX>, ledger: Ledger)
    requires
        ledger.balanced(),
        replay_in_range(ops, ledger),
    ensures
        replay(ops, ledger).balanced(),
    decreases ops.len(),
{
    if ops.len() > 0 {
        lemma_operation_keeps_balance(ops[0], ledger);
        lemma_replay_keeps_balance(ops.drop_first(), after(ops[0], ledger));
    }
}

/// Whatever log is replayed from the empty ledger, within range, every account
/// is balanced at the end.
pub proof fn lemma_run_is_balanced(ops: Seq<TX>)
    requires
        replay_in_range(ops, Ledger::empty()),
    ensures
        replay(ops, Ledger::empty()).balanced(),
{
    lemma_replay_keeps_balance(ops, Ledger::empty());
}

/// A rejected operation leaves every account and every record as it was.
pub proof fn lemma_rejection_changes_nothing(tx: TX, ledger: Ledger)
    requires
        rejection(tx, ledger) is Some,
    ensures
        after(tx, ledger) == ledger,
{
}

/// A dispute that was accepted is rejected when it is made again at once: the
/// record is already disputed.
pub proof fn lemma_second_dispute_rejected(op: Dispute, ledger: Ledger)
    requires
        rejection(TX::Dispute(op), ledger) is None,
    ensures
        rejection(TX::Dispute(op), after(TX::Dispute(op), ledger)) == Some(
            TXError::ParentTXAlreadyDisputed(TX::Dispute(op)),
        ),
{
}

/// Whether the operation can end the record `id`: a resolve or chargeback
/// closes it, a deposit or withdrawal under the same id replaces it.
pub open spec fn ends_record(tx: TX, id: u32) -> bool {
    match tx {
        TX::Deposit(op) => op.tx == id,
        TX::Withdrawal(op) => op.tx == id,
        TX::Dispute(_) => false,
        TX::Resolve(op) => op.tx == id,
        TX::Chargeback(op) => op.tx == id,
    }
}

/// A disputed record stays as it is through every operation that cannot end
/// it.
pub proof fn lemma_dispute_lasts(ops: Seq<TX>, ledger: Ledger, id: u32)
    requires
        ledger.records.contains_key(id),
        ledger.records[id].disputed,
        forall|i: int| 0 <= i < ops.len() ==> !ends_record(#[trigger] ops[i], id),
    ensures
        replay(ops, ledger).records.contains_key(id),
        replay(ops, ledger).records[id] == ledger.records[id],
    decreases ops.len(),
{
    if ops.len() > 0 {
        let next = after(ops[0], ledger);
        assert(!ends_record(ops[0], id));
        assert(next.records.contains_key(id) && next.records[id] == ledger.records[id]);
        assert forall|i: int| 0 <= i < ops.drop_first().len() implies !ends_record(
            #[trigger] ops.drop_first()[i],
            id,
        ) by {
            assert(ops.drop_first()[i] == ops[i + 1]);
        }
        lemma_dispute_lasts(ops.drop_first(), next, id);
    }
}

/// While a record is disputed no dispute of it is accepted, and the owner's
/// dispute, on an account that is not locked, is told that the record is
/// already disputed.
pub proof fn lemma_disputed_record_rejects_dispute(op: Dispute, ledger: Ledger)
    requires
        ledger.records.contains_key(op.tx),
        ledger.records[op.tx].disputed,
    ensures
        rejection(TX::Dispute(op), ledger) is Some,
        ledger.accounts.contains_key(op.client) && op.client == ledger.records[op.tx].client
            && !ledger.accounts[op.client].locked ==> rejection(TX::Dispute(op), ledger) == Some(
            TXError::ParentTXAlreadyDisputed(TX::Dispute(op)),
        ),
{
}

/// Whether the operation is a resolve or a chargeback of the record `id`.
pub open spec fn closes_record(tx: TX, id: u32) -> bool {
    match tx {
        TX::Resolve(op) => op.tx == id,
        TX::Chargeback(op) => op.tx == id,
        _ => false,
    }
}

/// A record that a resolve or a chargeback has closed is gone: a later dispute
/// of its id finds nothing.
pub proof fn lemma_closed_record_cannot_be_disputed(closing: TX, again: Dispute, ledger: Ledger)
    requires
        closes_record(closing, again.tx),
        rejection(closing, ledger) is None,
    ensures
        !after(closing, ledger).records.contains_key(again.tx),
        rejection(TX::Dispute(again), after(closing, ledger)) == Some(
            TXError::ParentTXNotFound(TX::Dispute(again)),
        ),
{
}

/// No operation removes an account, and only an accepted deposit opens one.
pub proof fn lemma_accounts_are_kept(tx: TX, ledger: Ledger, client: u16)
    ensures
        ledger.accounts.contains_key(client) ==> after(tx, ledger).accounts.contains_key(client),
        after(tx, ledger).accounts.contains_key(client) && !ledger.accounts.contains_key(client)
            ==> rejection(tx, ledger) is None && (tx matches TX::Deposit(op) && op.client
            == client),
{
}

/// An account that exists is still there after any run of operations.
pub proof fn lemma_accounts_persist(ops: Seq<TX>, ledger: Ledger, client: u16)
    requires
        ledger.accounts.contains_key(client),
    ensures
        replay(ops, ledger).accounts.contains_key(client),
    decreases ops.len(),
{
    if ops.len() > 0 {
        lemma_accounts_are_kept(ops[0], ledger, client);
        lemma_accounts_persist(ops.drop_first(), after(ops[0], ledger), client);
    }
}

/// An accepted chargeback leaves the client's account locked.
pub proof fn lemma_chargeback_locks(op: Chargeback, ledger: Ledger)
    requires
        rejection(TX::Chargeback(op), ledger) is None,
    ensures
        after(TX::Chargeback(op), ledger).accounts.contains_key(op.client),
        after(TX::Chargeback(op), ledger).accounts[op.client].locked,
{
}

/// No run of operations changes a locked account: it stays locked, with the
/// balances it had.
pub proof fn lemma_locked_account_is_frozen(ops: Seq<TX>, ledger: Ledger, client: u16)
    requires
        ledger.accounts.contains_key(client),
        ledger.accounts[client].locked,
    ensures
        replay(ops, ledger).accounts.contains_key(client),
        replay(ops, ledger).accounts[client] == ledger.accounts[client],
    decreases ops.len(),
{
    if ops.len() > 0 {
        let next = after(ops[0], ledger);
        assert(next.accounts.contains_key(client) && next.accounts[client]
            == ledger.accounts[client]);
        lemma_locked_account_is_frozen(ops.drop_first(), next, client);
    }
}

/// Whether the operation reaches the account of `client`: a deposit or a
/// withdrawal of that client does, and so does the client's dispute, resolve or
/// chargeback of a record that is open and the client's own.
pub open spec fn reaches_account(tx: TX, client: u16, ledger: Ledger) -> bool {
    match tx {
        TX::Deposit(op) => op.client == client,
        TX::Withdrawal(op) => op.client == client,
        TX::Dispute(op) => op.client == client && owns_record(client, op.tx, ledger),
        TX::Resolve(op) => op.client == client && owns_record(client, op.tx, ledger),
        TX::Chargeback(op) => op.client == client && owns_record(client, op.tx, ledger),
    }
}

/// Whether the record `id` is open and belongs to `client`.
pub open spec fn owns_record(client: u16, id: u32, ledger: Ledger) -> bool {
    ledger.records.contains_key(id) && ledger.records[id].client == client
}

/// Every operation that reaches a locked account is rejected because the
/// account is locked.
pub proof fn lemma_locked_account_rejects(tx: TX, ledger: Ledger, client: u16)
    requires
        ledger.accounts.contains_key(client),
        ledger.accounts[client].locked,
        reaches_account(tx, client, ledger),
    ensures
        rejection(tx, ledger) == Some(TXError::AccountLocked(tx)),
{
}

/// After an accepted chargeback, and whatever operations follow it, every
/// operation that reaches the client's account is rejected because the account
/// is locked.
pub proof fn lemma_chargeback_locks_for_good(
    op: Chargeback,
    ledger: Ledger,
    later: Seq<TX>,
    tx: TX,
)
    requires
        rejection(TX::Chargeback(op), ledger) is None,
        reaches_account(tx, op.client, replay(later, after(TX::Chargeback(op), ledger))),
    ensures
        rejection(tx, replay(later, after(TX::Chargeback(op), ledger))) == Some(
            TXError::AccountLocked(tx),
        ),
{
    let locked = after(TX::Chargeback(op), ledger);
    lemma_chargeback_locks(op, ledger);
    lemma_locked_account_is_frozen(later, locked, op.client);
    lemma_locked_account_rejects(tx, replay(later, locked), op.client);
}

/// A client who tries to resolve or charge back an open record of another
/// client is told whose record it is.
pub proof fn lemma_stranger_cannot_close(client: u16, id: u32, ledger: Ledger)
    requires
        ledger.records.contains_key(id),
        ledger.records[id].client != client,
    ensures
        rejection(TX::Resolve(Resolve { client, tx: id }), ledger) == Some(
            TXError::ClientsDontMatch(
                ledger.records[id].client,
                TX::Resolve(Resolve { client, tx: id }),
            ),
        ),
        rejection(TX::Chargeback(Chargeback { client, tx: id }), ledger) == Some(
            TXError::ClientsDontMatch(
                ledger.records[id].client,
                TX::Chargeback(Chargeback { client, tx: id }),
            ),
        ),
{
}

} // verus!
