//! The router: it takes one record at a time, finds the account, runs the
//! checks of the record's kind and applies the operation.
//!
//! A rejected record changes nothing, and the run goes on with the next one.
//! The state that the router works on is the caller's: the accounts, the
//! history of applied deposits and withdrawals, and the set of transactions
//! under dispute. Together they are a [`State`], which is read as a
//! [`Ledger`], and each function here does what [`Ledger::apply`] says.

use crate::account::Account;
use crate::amount::{has_valid_precision, Amount};
use crate::error::TxError;
use crate::ledger::{
    checked_amount, disputable_amount, disputed_amount, new_transaction_amount, operate,
    validated_amount, Ledger,
};
use crate::record::{Event, Record, Transaction, TxType};
use std::collections::{HashMap, HashSet};
use vstd::prelude::*;

verus! {

broadcast use vstd::std_specs::hash::group_hash_axioms;

/// What the caller holds between two records.
pub struct State {
    /// The account of every client that has one.
    pub accounts: Map<u16, Account>,
    /// Every deposit and withdrawal that was applied, by transaction id.
    pub history: Map<u32, Transaction>,
    /// The transactions that are under dispute.
    pub disputes: Set<u32>,
}

impl View for State {
    type V = Ledger;

    /// The ledger that the state stands for: each account with its balances
    /// read as numbers.
    open spec fn view(&self) -> Ledger {
        Ledger {
            accounts: Map::new(
                |client: u16| self.accounts.contains_key(client),
                |client: u16| self.accounts[client]@,
            ),
            history: self.history,
            disputes: self.disputes,
        }
    }
}

/// The state that is made of the three collections.
pub open spec fn state(
    accounts: Map<u16, Account>,
    history: Map<u32, Transaction>,
    disputes: Set<u32>,
) -> State {
    State { accounts, history, disputes }
}

/// `after` is `before` with the operation of the given kind applied, balance
/// by balance as it is written.
pub open spec fn operation_applied(
    before: Account,
    kind: TxType,
    amount: Amount,
    after: Account,
) -> bool {
    match kind {
        TxType::Deposit => before.deposited(amount, after),
        TxType::Withdrawal => before.withdrawn(amount, after),
        TxType::Dispute => before.disputed(amount, after),
        TxType::Resolve => before.resolved(amount, after),
        TxType::Chargeback => before.charged_back(amount, after),
    }
}

/// Whether the operation of the given kind can do its arithmetic on this
/// account without rounding.
pub open spec fn operation_fits(account: Account, kind: TxType, amount: Amount) -> bool {
    match kind {
        TxType::Deposit => account.deposit_fits(amount),
        TxType::Withdrawal => account.withdraw_fits(amount),
        TxType::Dispute => account.dispute_fits(amount),
        TxType::Resolve => account.resolve_fits(amount),
        TxType::Chargeback => account.chargeback_fits(amount),
    }
}

/// Whether a record can be processed without rounding: where it passes its
/// checks and an operation on an account is due, the balances that the
/// operation computes are within the range of an amount. A deposit into a
/// new account always can.
pub open spec fn arithmetic_fits(e: Event, s: State) -> bool {
    match s@.request(e) {
        Ok((kind, amount)) => s.accounts.contains_key(e.client) ==> operation_fits(
            s.accounts[e.client],
            kind,
            amount,
        ),
        Err(_) => true,
    }
}

/// Whether the checks of a record leave an operation that can do its
/// arithmetic on this account without rounding.
pub open spec fn handler_fits(
    checked: Result<Amount, TxError>,
    kind: TxType,
    account: Account,
) -> bool {
    checked matches Ok(amount) ==> operation_fits(account, kind, amount)
}

/// What handling a record on its account comes to, given what the checks of
/// its kind have found. Where they have found a reason to reject it, or the
/// operation finds one, that reason is returned and the account is as it was.
/// Else the operation is applied.
pub open spec fn handled(
    checked: Result<Amount, TxError>,
    kind: TxType,
    before: Account,
    result: Result<(), TxError>,
    after: Account,
) -> bool {
    match checked {
        Err(reason) => result == Err::<(), TxError>(reason) && after == before,
        Ok(amount) => match operate(before@, kind, amount@) {
            Err(reason) => result == Err::<(), TxError>(reason) && after == before,
            Ok(balances) => {
                &&& result is Ok
                &&& after@ == balances
                &&& operation_applied(before, kind, amount, after)
            },
        },
    }
}

/// The account that an applied record leaves to its client: the client's
/// account with the operation applied, or, where the client had none, a new
/// account that holds the deposit.
pub open spec fn account_after(
    before: State,
    client: u16,
    kind: TxType,
    amount: Amount,
    after: Account,
) -> bool {
    if before.accounts.contains_key(client) {
        operation_applied(before.accounts[client], kind, amount, after)
    } else {
        Account::opened_with(amount, after)
    }
}

/// What processing one record comes to. It is rejected for the reason that
/// [`Ledger::apply`] gives, and then nothing has changed. Or it is applied:
/// the state stands for the ledger that [`Ledger::apply`] gives, the account
/// of its client is the one that the operation leaves, and no other account
/// has changed.
pub open spec fn processed(
    e: Event,
    before: State,
    result: Result<(), TxError>,
    after: State,
) -> bool {
    match before@.apply(e) {
        Ok(next) => {
            &&& result is Ok
            &&& after@ == next
            &&& after.accounts.contains_key(e.client)
            &&& after.accounts == before.accounts.insert(e.client, after.accounts[e.client])
            &&& before@.request(e) matches Ok((kind, amount)) && account_after(
                before,
                e.client,
                kind,
                amount,
                after.accounts[e.client],
            )
        },
        Err(reason) => result == Err::<(), TxError>(reason) && after == before,
    }
}

/// What holds across every record, applied or rejected: accounts that were in
/// balance are in balance, a locked account is as it was, and every entry of
/// the history is as it was.
pub open spec fn invariants_kept(before: State, after: State) -> bool {
    &&& before@.balanced() ==> after@.balanced()
    &&& forall|client: u16|
        before.accounts.contains_key(client) && before.accounts[client].locked ==> {
            &&& #[trigger] after.accounts.contains_key(client)
            &&& after.accounts[client] == before.accounts[client]
        }
    &&& forall|tx: u32|
        before.history.contains_key(tx) ==> {
            &&& #[trigger] after.history.contains_key(tx)
            &&& after.history[tx] == before.history[tx]
        }
}

/// The transaction that the history keeps for an applied record.
pub open spec fn transaction_of(e: Event, kind: TxType) -> Transaction {
    Transaction { kind, client: e.client, tx: e.tx, amount: e.amount }
}

/// Checks the amount of a deposit or a withdrawal: it must be there
/// (`MissingAmount`), not be below zero (`NegativeAmount`) and have at most
/// four digits after the point (`PrecisionExceeded`).
pub fn validate_amount(amount: Option<Amount>) -> (r: Result<Amount, TxError>)
    ensures
        r == validated_amount(amount),
{
    match amount {
        None => Err(TxError::MissingAmount),
        Some(a) => {
            if a.is_sign_negative() {
                Err(TxError::NegativeAmount)
            } else if !has_valid_precision(&a) {
                Err(TxError::PrecisionExceeded)
            } else {
                Ok(a)
            }
        },
    }
}

/// The checks of a record that makes a transaction: its id must be new
/// (`DuplicateTransactionId`) and its amount valid.
fn check_new_transaction(
    record: &Record,
    transactions: &HashMap<u32, Transaction>,
) -> (r: Result<Amount, TxError>)
    ensures
        r == new_transaction_amount(transactions@, record@),
{
    if transactions.contains_key(&record.tx) {
        return Err(TxError::DuplicateTransactionId);
    }
    validate_amount(record.amount)
}

/// The checks of a dispute: the transaction must be in the history
/// (`TransactionNotFound`), be a deposit (`NotDisputable`), not be under
/// dispute (`AlreadyDisputed`) and have an amount (`MissingAmount`).
fn check_dispute(
    record: &Record,
    transactions: &HashMap<u32, Transaction>,
    disputes: &HashSet<u32>,
) -> (r: Result<Amount, TxError>)
    ensures
        r == disputable_amount(transactions@, disputes@, record@),
{
    let disputed = match transactions.get(&record.tx) {
        Some(transaction) => transaction,
        None => {
            return Err(TxError::TransactionNotFound);
        },
    };
    if disputed.kind != TxType::Deposit {
        return Err(TxError::NotDisputable);
    }
    if disputes.contains(&record.tx) {
        return Err(TxError::AlreadyDisputed);
    }
    match disputed.amount {
        Some(amount) => Ok(amount),
        None => Err(TxError::MissingAmount),
    }
}

/// The checks of a resolve or a chargeback: the transaction must be under
/// dispute (`NotDisputed`), be in the history (`TransactionNotFound`) and
/// have an amount (`MissingAmount`).
fn check_settlement(
    record: &Record,
    transactions: &HashMap<u32, Transaction>,
    disputes: &HashSet<u32>,
) -> (r: Result<Amount, TxError>)
    ensures
        r == disputed_amount(transactions@, disputes@, record@),
{
    if !disputes.contains(&record.tx) {
        return Err(TxError::NotDisputed);
    }
    match transactions.get(&record.tx) {
        None => Err(TxError::TransactionNotFound),
        Some(disputed) => match disputed.amount {
            Some(amount) => Ok(amount),
            None => Err(TxError::MissingAmount),
        },
    }
}

/// The checks of a record of the given kind on an account that is locked or
/// not, and the amount for the operation.
fn check_record(
    kind: TxType,
    record: &Record,
    locked: bool,
    transactions: &HashMap<u32, Transaction>,
    disputes: &HashSet<u32>,
) -> (r: Result<Amount, TxError>)
    ensures
        r == checked_amount(kind, transactions@, disputes@, locked, record@),
{
    match kind {
        TxType::Deposit | TxType::Withdrawal => check_new_transaction(record, transactions),
        TxType::Dispute => check_dispute(record, transactions, disputes),
        TxType::Resolve => check_settlement(record, transactions, disputes),
        TxType::Chargeback => {
            let amount = check_settlement(record, transactions, disputes)?;
            if locked {
                Err(TxError::LockedAccount)
            } else {
                Ok(amount)
            }
        },
    }
}

/// A deposit into `account`: checks the record, adds its amount to the
/// account and enters the record into the history.
pub fn process_deposit(
    record: &Record,
    account: &mut Account,
    transactions: &mut HashMap<u32, Transaction>,
) -> (result: Result<(), TxError>)
    requires
        handler_fits(
            new_transaction_amount(old(transactions)@, record@),
            TxType::Deposit,
            *old(account),
        ),
    ensures
        handled(
            new_transaction_amount(old(transactions)@, record@),
            TxType::Deposit,
            *old(account),
            result,
            *final(account),
        ),
        final(transactions)@ == if result is Ok {
            old(transactions)@.insert(record.tx, transaction_of(record@, TxType::Deposit))
        } else {
            old(transactions)@
        },
        old(account)@.balanced() ==> final(account)@.balanced(),
{
    let amount = check_new_transaction(record, transactions)?;
    account.deposit(amount)?;
    transactions.insert(
        record.tx,
        Transaction {
            kind: TxType::Deposit,
            client: record.client,
            tx: record.tx,
            amount: record.amount,
        },
    );
    Ok(())
}

/// A withdrawal from `account`: checks the record, takes its amount from the
/// account and enters the record into the history.
pub fn process_withdrawal(
    record: &Record,
    account: &mut Account,
    transactions: &mut HashMap<u32, Transaction>,
) -> (result: Result<(), TxError>)
    requires
        handler_fits(
            new_transaction_amount(old(transactions)@, record@),
            TxType::Withdrawal,
            *old(account),
        ),
    ensures
        handled(
            new_transaction_amount(old(transactions)@, record@),
            TxType::Withdrawal,
            *old(account),
            result,
            *final(account),
        ),
        final(transactions)@ == if result is Ok {
            old(transactions)@.insert(record.tx, transaction_of(record@, TxType::Withdrawal))
        } else {
            old(transactions)@
        },
        old(account)@.balanced() ==> final(account)@.balanced(),
{
    let amount = check_new_transaction(record, transactions)?;
    account.withdraw(amount)?;
    transactions.insert(
        record.tx,
        Transaction {
            kind: TxType::Withdrawal,
            client: record.client,
            tx: record.tx,
            amount: record.amount,
        },
    );
    Ok(())
}

/// A dispute on `account`: checks the record against the history, holds the
/// amount of the disputed deposit and opens the dispute.
pub fn process_dispute(
    record: &Record,
    account: &mut Account,
    transactions: &HashMap<u32, Transaction>,
    disputes: &mut HashSet<u32>,
) -> (result: Result<(), TxError>)
    requires
        handler_fits(
            disputable_amount(transactions@, old(disputes)@, record@),
            TxType::Dispute,
            *old(account),
        ),
    ensures
        handled(
            disputable_amount(transactions@, old(disputes)@, record@),
            TxType::Dispute,
            *old(account),
            result,
            *final(account),
        ),
        final(disputes)@ == if result is Ok {
            old(disputes)@.insert(record.tx)
        } else {
            old(disputes)@
        },
        old(account)@.balanced() ==> final(account)@.balanced(),
{
    let amount = check_dispute(record, transactions, disputes)?;
    account.apply_dispute(amount)?;
    disputes.insert(record.tx);
    Ok(())
}

/// A resolve on `account`: checks the record against the open disputes,
/// releases the amount of the disputed deposit and closes the dispute.
pub fn process_resolve(
    record: &Record,
    account: &mut Account,
    transactions: &HashMap<u32, Transaction>,
    disputes: &mut HashSet<u32>,
) -> (result: Result<(), TxError>)
    requires
        handler_fits(
            disputed_amount(transactions@, old(disputes)@, record@),
            TxType::Resolve,
            *old(account),
        ),
    ensures
        handled(
            disputed_amount(transactions@, old(disputes)@, record@),
            TxType::Resolve,
            *old(account),
            result,
            *final(account),
        ),
        final(disputes)@ == if result is Ok {
            old(disputes)@.remove(record.tx)
        } else {
            old(disputes)@
        },
        old(account)@.balanced() ==> final(account)@.balanced(),
{
    let amount = check_settlement(record, transactions, disputes)?;
    account.resolve_dispute(amount)?;
    disputes.remove(&record.tx);
    Ok(())
}

/// A chargeback on `account`: checks the record against the open disputes,
/// refuses a locked account (`LockedAccount`), takes the amount of the
/// disputed deposit out of the account, locks it and closes the dispute.
pub fn process_chargeback(
    record: &Record,
    account: &mut Account,
    transactions: &HashMap<u32, Transaction>,
    disputes: &mut HashSet<u32>,
) -> (result: Result<(), TxError>)
    requires
        handler_fits(
            checked_amount(
                TxType::Chargeback,
                transactions@,
                old(disputes)@,
                old(account).locked,
                record@,
            ),
            TxType::Chargeback,
            *old(account),
        ),
    ensures
        handled(
            checked_amount(
                TxType::Chargeback,
                transactions@,
                old(disputes)@,
                old(account).locked,
                record@,
            ),
            TxType::Chargeback,
            *old(account),
            result,
            *final(account),
        ),
        final(disputes)@ == if result is Ok {
            old(disputes)@.remove(record.tx)
        } else {
            old(disputes)@
        },
        old(account)@.balanced() ==> final(account)@.balanced(),
{
    let amount = check_record(TxType::Chargeback, record, account.locked, transactions, disputes)?;
    account.chargeback(amount)?;
    disputes.remove(&record.tx);
    Ok(())
}

/// Whether the operation of the given kind can do its arithmetic on this
/// account without rounding.
fn can_operate(account: &Account, kind: TxType, amount: &Amount) -> (ok: bool)
    ensures
        ok == operation_fits(*account, kind, *amount),
{
    match kind {
        TxType::Deposit => account.can_deposit(amount),
        TxType::Withdrawal => account.can_withdraw(amount),
        TxType::Dispute => account.can_apply_dispute(amount),
        TxType::Resolve => account.can_resolve_dispute(amount),
        TxType::Chargeback => account.can_chargeback(amount),
    }
}

/// Whether [`dispatch`] can take this record: whether it can be processed
/// without rounding.
pub fn can_dispatch(
    kind: TxType,
    record: &Record,
    accounts: &HashMap<u16, Account>,
    transactions: &HashMap<u32, Transaction>,
    disputes: &HashSet<u32>,
) -> (ok: bool)
    ensures
        ok == arithmetic_fits(record.of_kind(kind), state(accounts@, transactions@, disputes@)),
{
    match accounts.get(&record.client) {
        // a record for a client without an account does no arithmetic,
        // or it is a deposit into a new account
        None => true,
        Some(account) => match check_record(kind, record, account.locked, transactions, disputes) {
            Ok(amount) => can_operate(account, kind, &amount),
            Err(_) => true,
        },
    }
}

/// Whether [`process_transaction`] can take this record: whether it can be
/// processed without rounding.
pub fn can_process(
    record: &Record,
    accounts: &HashMap<u16, Account>,
    transactions: &HashMap<u32, Transaction>,
    disputes: &HashSet<u32>,
) -> (ok: bool)
    ensures
        ok == arithmetic_fits(record@, state(accounts@, transactions@, disputes@)),
{
    match TxType::from_str(record.tx_type.as_str()) {
        Ok(kind) => can_dispatch(kind, record, accounts, transactions, disputes),
        Err(_) => true,
    }
}

/// Processes one record whose kind has been read.
///
/// A deposit goes to the client's account, or to a new one where the client
/// has none; the new account is kept only where the deposit is applied. Every
/// other kind needs the account to exist (`UnknownAccount`). Then the checks
/// of the kind are made and the operation is applied to the account, as
/// [`Ledger::apply`] says.
///
/// A rejected record leaves the accounts, the history and the disputes as
/// they were. An applied record changes the account of its client and no
/// other. Whatever the record, accounts that were in balance stay in balance,
/// a locked account stays as it is, and what is in the history stays there.
pub fn dispatch(
    kind: TxType,
    record: &Record,
    accounts: &mut HashMap<u16, Account>,
    transactions: &mut HashMap<u32, Transaction>,
    disputes: &mut HashSet<u32>,
) -> (result: Result<(), TxError>)
    requires
        arithmetic_fits(
            record.of_kind(kind),
            state(old(accounts)@, old(transactions)@, old(disputes)@),
        ),
    ensures
        processed(
            record.of_kind(kind),
            state(old(accounts)@, old(transactions)@, old(disputes)@),
            result,
            state(final(accounts)@, final(transactions)@, final(disputes)@),
        ),
        invariants_kept(
            state(old(accounts)@, old(transactions)@, old(disputes)@),
            state(final(accounts)@, final(transactions)@, final(disputes)@),
        ),
{
    let ghost before = state(accounts@, transactions@, disputes@);
    let mut account = match accounts.get(&record.client) {
        Some(account) => *account,
        None => {
            if kind != TxType::Deposit {
                return Err(TxError::UnknownAccount);
            }
            Account::new()
        },
    };
    proof {
        assert(account@ == before@.balances(record.client));
    }
    match kind {
        TxType::Deposit => process_deposit(record, &mut account, transactions)?,
        TxType::Withdrawal => process_withdrawal(record, &mut account, transactions)?,
        TxType::Dispute => process_dispute(record, &mut account, transactions, disputes)?,
        TxType::Resolve => process_resolve(record, &mut account, transactions, disputes)?,
        TxType::Chargeback => process_chargeback(record, &mut account, transactions, disputes)?,
    }
    accounts.insert(record.client, account);
    proof {
        let after = state(accounts@, transactions@, disputes@);
        assert(after@.accounts =~= before@.accounts.insert(record.client, account@));
    }
    Ok(())
}

/// Processes one record.
///
/// The record's kind is read first, whatever its case; a text that names none
/// is rejected with `UnknownTransactionType`. The rest is [`dispatch`].
pub fn process_transaction(
    record: &Record,
    accounts: &mut HashMap<u16, Account>,
    transactions: &mut HashMap<u32, Transaction>,
    disputes: &mut HashSet<u32>,
) -> (result: Result<(), TxError>)
    requires
        arithmetic_fits(record@, state(old(accounts)@, old(transactions)@, old(disputes)@)),
    ensures
        processed(
            record@,
            state(old(accounts)@, old(transactions)@, old(disputes)@),
            result,
            state(final(accounts)@, final(transactions)@, final(disputes)@),
        ),
        invariants_kept(
            state(old(accounts)@, old(transactions)@, old(disputes)@),
            state(final(accounts)@, final(transactions)@, final(disputes)@),
        ),
{
    let kind = TxType::from_str(record.tx_type.as_str())?;
    dispatch(kind, record, accounts, transactions, disputes)
}

/// Processes one record where that can be done without rounding, and leaves
/// everything as it was where it cannot.
///
/// It returns what [`process_transaction`] returns, or `None` where a balance
/// that the record asks for is outside the range of an amount.
pub fn try_process_transaction(
    record: &Record,
    accounts: &mut HashMap<u16, Account>,
    transactions: &mut HashMap<u32, Transaction>,
    disputes: &mut HashSet<u32>,
) -> (result: Option<Result<(), TxError>>)
    ensures
        result is Some <==> arithmetic_fits(
            record@,
            state(old(accounts)@, old(transactions)@, old(disputes)@),
        ),
        match result {
            Some(outcome) => processed(
                record@,
                state(old(accounts)@, old(transactions)@, old(disputes)@),
                outcome,
                state(final(accounts)@, final(transactions)@, final(disputes)@),
            ),
            None => state(final(accounts)@, final(transactions)@, final(disputes)@) == state(
                old(accounts)@,
                old(transactions)@,
                old(disputes)@,
            ),
        },
        invariants_kept(
            state(old(accounts)@, old(transactions)@, old(disputes)@),
            state(final(accounts)@, final(transactions)@, final(disputes)@),
        ),
{
    if can_process(record, accounts, transactions, disputes) {
        Some(process_transaction(record, accounts, transactions, disputes))
    } else {
        None
    }
}

} // verus!
