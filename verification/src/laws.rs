//! What holds of every run of the ledger.
//!
//! Each lemma here is stated over [`Ledger::apply`] and [`Ledger::run`], the
//! functions that the router's contracts speak of, so it holds of what the
//! router does.

use crate::ledger::Ledger;
use crate::record::{Event, TxType};
use vstd::prelude::*;

verus! {

/// Whether the record makes a transaction: it is a deposit or a withdrawal.
pub open spec fn makes_transaction(e: Event) -> bool {
    e.kind == Some(TxType::Deposit) || e.kind == Some(TxType::Withdrawal)
}

/// Whether the record closes a dispute: it is a resolve or a chargeback.
pub open spec fn closes_dispute(e: Event) -> bool {
    e.kind == Some(TxType::Resolve) || e.kind == Some(TxType::Chargeback)
}

/// A run meets each of its records in the ledger that the record before it
/// has left.
pub proof fn lemma_run_step(start: Ledger, events: Seq<Event>, i: int)
    requires
        0 <= i < events.len(),
    ensures
        start.before(events, i + 1) == start.before(events, i).after(events[i]),
        start.before(events, 0) == start,
        start.before(events, events.len() as int) == start.run(events),
{
    assert(events.take(i + 1).drop_last() =~= events.take(i));
    assert(events.take(i + 1).last() == events[i]);
    assert(events.take(events.len() as int) =~= events);
}

/// Balance is kept: where every account's total is what it has available
/// plus what it has held, the same holds after one more record, applied or
/// rejected.
pub proof fn lemma_apply_keeps_balance(ledger: Ledger, e: Event)
    requires
        ledger.balanced(),
    ensures
        ledger.after(e).balanced(),
{
    assert(ledger.balances(e.client).balanced());
}

/// Balance is kept over a whole run, and the empty ledger is in balance: so
/// at every point of every run each account's total is what it has available
/// plus what it has held.
pub proof fn lemma_run_keeps_balance(start: Ledger, events: Seq<Event>)
    requires
        start.balanced(),
    ensures
        start.run(events).balanced(),
        Ledger::empty().balanced(),
    decreases events.len(),
{
    if events.len() > 0 {
        lemma_run_keeps_balance(start, events.drop_last());
        lemma_apply_keeps_balance(start.run(events.drop_last()), events.last());
    }
}

/// A locked account is final: no record, for whichever client and of
/// whichever kind, changes what a locked account has available, held or in
/// total, nor unlocks it.
pub proof fn lemma_locked_account_is_final(ledger: Ledger, e: Event, client: u16)
    requires
        ledger.accounts.contains_key(client),
        ledger.accounts[client].locked,
    ensures
        ledger.after(e).accounts.contains_key(client),
        ledger.after(e).accounts[client] == ledger.accounts[client],
{
}

/// A locked account stays as it is to the end of the run.
pub proof fn lemma_locked_account_stays(start: Ledger, events: Seq<Event>, client: u16)
    requires
        start.accounts.contains_key(client),
        start.accounts[client].locked,
    ensures
        start.run(events).accounts.contains_key(client),
        start.run(events).accounts[client] == start.accounts[client],
    decreases events.len(),
{
    if events.len() > 0 {
        lemma_locked_account_stays(start, events.drop_last(), client);
        lemma_locked_account_is_final(start.run(events.drop_last()), events.last(), client);
    }
}

/// A rejected record can be sent again: it changes nothing, and it is
/// rejected for the same reason the second time, again with no change.
pub proof fn lemma_rejection_repeats(ledger: Ledger, e: Event)
    requires
        ledger.apply(e) is Err,
    ensures
        ledger.after(e) == ledger,
        ledger.after(e).apply(e) == ledger.apply(e),
        ledger.after(e).after(e) == ledger,
{
}

/// The history only grows: an entry is never removed, and never replaced by
/// another record with the same transaction id.
pub proof fn lemma_history_is_kept(ledger: Ledger, e: Event, tx: u32)
    requires
        ledger.history.contains_key(tx),
    ensures
        ledger.after(e).history.contains_key(tx),
        ledger.after(e).history[tx] == ledger.history[tx],
{
}

/// What the history holds at one point of a run it holds at every later one.
pub proof fn lemma_history_is_kept_in_run(
    start: Ledger,
    events: Seq<Event>,
    i: int,
    j: int,
    tx: u32,
)
    requires
        0 <= i <= j <= events.len(),
        start.before(events, i).history.contains_key(tx),
    ensures
        start.before(events, j).history.contains_key(tx),
        start.before(events, j).history[tx] == start.before(events, i).history[tx],
    decreases j - i,
{
    if i < j {
        lemma_history_is_kept_in_run(start, events, i, j - 1, tx);
        lemma_run_step(start, events, j - 1);
        lemma_history_is_kept(start.before(events, j - 1), events[j - 1], tx);
    }
}

/// A transaction id is used once: of the deposits and withdrawals of a run
/// that share an id, at most one is applied and enters the history, however
/// many there are.
pub proof fn lemma_transaction_id_is_used_once(
    start: Ledger,
    events: Seq<Event>,
    i: int,
    j: int,
)
    requires
        0 <= i < j < events.len(),
        makes_transaction(events[i]),
        makes_transaction(events[j]),
        events[i].tx == events[j].tx,
        start.applied(events, i),
    ensures
        !start.applied(events, j),
        start.before(events, j).after(events[j]) == start.before(events, j),
{
    lemma_run_step(start, events, i);
    assert(start.before(events, i + 1).history.contains_key(events[i].tx));
    lemma_history_is_kept_in_run(start, events, i + 1, j, events[i].tx);
}

/// A transaction is under dispute only through a dispute: where it is under
/// dispute after `n` records of a run that began with it not under dispute,
/// one of them was an applied dispute on it, and no resolve or chargeback on
/// it was applied since. The lemma returns the position of that dispute.
pub proof fn lemma_open_dispute_has_cause(
    start: Ledger,
    events: Seq<Event>,
    tx: u32,
    n: int,
) -> (j: int)
    requires
        !start.disputes.contains(tx),
        0 <= n <= events.len(),
        start.before(events, n).disputes.contains(tx),
    ensures
        0 <= j < n,
        events[j].kind == Some(TxType::Dispute),
        events[j].tx == tx,
        start.applied(events, j),
        forall|k: int|
            j < k < n && closes_dispute(events[k]) && events[k].tx == tx
                ==> !#[trigger] start.applied(events, k),
    decreases n,
{
    if n == 0 {
        assert(events.take(0) =~= Seq::<Event>::empty());
        0
    } else {
        lemma_run_step(start, events, n - 1);
        let earlier = start.before(events, n - 1);
        if earlier.disputes.contains(tx) {
            let j = lemma_open_dispute_has_cause(start, events, tx, n - 1);
            assert forall|k: int|
                j < k < n && closes_dispute(events[k]) && events[k].tx == tx
                    implies !#[trigger] start.applied(events, k) by {
                if k == n - 1 && start.applied(events, k) {
                    assert(!earlier.after(events[k]).disputes.contains(tx));
                }
            }
            j
        } else {
            n - 1
        }
    }
}

/// The life of a dispute: a resolve or a chargeback on a transaction is
/// applied only where a dispute on that transaction was applied before it and
/// no resolve or chargeback on it was applied in between. The run must begin
/// with the transaction not under dispute. The lemma returns the position of
/// the dispute.
pub proof fn lemma_dispute_lifecycle(start: Ledger, events: Seq<Event>, i: int) -> (j: int)
    requires
        0 <= i < events.len(),
        !start.disputes.contains(events[i].tx),
        closes_dispute(events[i]),
        start.applied(events, i),
    ensures
        0 <= j < i,
        events[j].kind == Some(TxType::Dispute),
        events[j].tx == events[i].tx,
        start.applied(events, j),
        forall|k: int|
            j < k < i && closes_dispute(events[k]) && events[k].tx == events[i].tx
                ==> !#[trigger] start.applied(events, k),
{
    lemma_open_dispute_has_cause(start, events, events[i].tx, i)
}

} // verus!
