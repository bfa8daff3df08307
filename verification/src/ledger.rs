//! The ledger as a state machine.
//!
//! A [`Ledger`] is what a run has built so far: the accounts, the history of
//! applied deposits and withdrawals, and the transactions that are under
//! dispute. [`Ledger::apply`] says what one record does to it. Everything
//! here is specification: the functions that run are in `router`, and their
//! contracts speak of these.

use crate::account::Balances;
use crate::amount::{Amount, MAX_LEDGER_SCALE};
use crate::error::TxError;
use crate::record::{Event, Transaction, TxType};
use vstd::prelude::*;

verus! {

/// The amount of a deposit or withdrawal, checked: it is there, it is not
/// below zero, and it has at most four digits after the point. The checks
/// come in this order.
pub open spec fn validated_amount(amount: Option<Amount>) -> Result<Amount, TxError> {
    match amount {
        None => Err(TxError::MissingAmount),
        Some(a) => if a@ < 0 {
            Err(TxError::NegativeAmount)
        } else if a.scale() > MAX_LEDGER_SCALE {
            Err(TxError::PrecisionExceeded)
        } else {
            Ok(a)
        },
    }
}

/// The amount of a record that makes a transaction, a deposit or a
/// withdrawal: its transaction id must be new, and its amount valid.
pub open spec fn new_transaction_amount(
    history: Map<u32, Transaction>,
    e: Event,
) -> Result<Amount, TxError> {
    if history.contains_key(e.tx) {
        Err(TxError::DuplicateTransactionId)
    } else {
        validated_amount(e.amount)
    }
}

/// The amount that a dispute is about: that of the transaction it names,
/// which must be in the history, be a deposit, and not be under dispute. The
/// amount of the dispute record itself is not read.
pub open spec fn disputable_amount(
    history: Map<u32, Transaction>,
    disputes: Set<u32>,
    e: Event,
) -> Result<Amount, TxError> {
    if !history.contains_key(e.tx) {
        Err(TxError::TransactionNotFound)
    } else if history[e.tx].kind != TxType::Deposit {
        Err(TxError::NotDisputable)
    } else if disputes.contains(e.tx) {
        Err(TxError::AlreadyDisputed)
    } else {
        match history[e.tx].amount {
            Some(a) => Ok(a),
            None => Err(TxError::MissingAmount),
        }
    }
}

/// The amount that a resolve or a chargeback is about: that of the
/// transaction it names, which must be under dispute and in the history.
pub open spec fn disputed_amount(
    history: Map<u32, Transaction>,
    disputes: Set<u32>,
    e: Event,
) -> Result<Amount, TxError> {
    if !disputes.contains(e.tx) {
        Err(TxError::NotDisputed)
    } else if !history.contains_key(e.tx) {
        Err(TxError::TransactionNotFound)
    } else {
        match history[e.tx].amount {
            Some(a) => Ok(a),
            None => Err(TxError::MissingAmount),
        }
    }
}

/// The checks that a record of the given kind passes before the operation
/// on its account, and the amount that the operation is then given.
///
/// A chargeback is refused here where the account is locked, since the
/// operation itself does not ask.
pub open spec fn checked_amount(
    kind: TxType,
    history: Map<u32, Transaction>,
    disputes: Set<u32>,
    locked: bool,
    e: Event,
) -> Result<Amount, TxError> {
    match kind {
        TxType::Deposit | TxType::Withdrawal => new_transaction_amount(history, e),
        TxType::Dispute => disputable_amount(history, disputes, e),
        TxType::Resolve => disputed_amount(history, disputes, e),
        TxType::Chargeback => match disputed_amount(history, disputes, e) {
            Ok(amount) => if locked {
                Err(TxError::LockedAccount)
            } else {
                Ok(amount)
            },
            Err(reason) => Err(reason),
        },
    }
}

/// What the operation of each kind does to an account's balances.
pub open spec fn operate(
    balances: Balances,
    kind: TxType,
    amount: int,
) -> Result<Balances, TxError> {
    match kind {
        TxType::Deposit => balances.deposit(amount),
        TxType::Withdrawal => balances.withdraw(amount),
        TxType::Dispute => balances.hold(amount),
        TxType::Resolve => balances.release(amount),
        TxType::Chargeback => balances.forfeit(amount),
    }
}

/// The state of a run.
#[verifier::ext_equal]
pub struct Ledger {
    /// The balances of every client that has an account.
    pub accounts: Map<u16, Balances>,
    /// Every deposit and withdrawal that was applied, by transaction id.
    pub history: Map<u32, Transaction>,
    /// The transactions that are under dispute.
    pub disputes: Set<u32>,
}

impl Ledger {
    /// The ledger at the start of a run: no account, no history, no dispute.
    pub open spec fn empty() -> Ledger {
        Ledger { accounts: Map::empty(), history: Map::empty(), disputes: Set::empty() }
    }

    /// The balances of a client: those of its account, or those of a new
    /// account where it has none.
    pub open spec fn balances(self, client: u16) -> Balances {
        if self.accounts.contains_key(client) {
            self.accounts[client]
        } else {
            Balances::empty()
        }
    }

    /// Every account's total is what it has available plus what it has held.
    pub open spec fn balanced(self) -> bool {
        forall|client: u16| #[trigger]
            self.accounts.contains_key(client) ==> self.accounts[client].balanced()
    }

    /// The account operation that a record asks for, with its amount, once
    /// the record has passed every check that comes before the operation.
    ///
    /// A record whose kind is unknown is rejected first. Every kind but a
    /// deposit needs the client to have an account. Then come the checks of
    /// the kind.
    pub open spec fn request(self, e: Event) -> Result<(TxType, Amount), TxError> {
        match e.kind {
            None => Err(TxError::UnknownTransactionType),
            Some(kind) => if kind != TxType::Deposit && !self.accounts.contains_key(e.client) {
                Err(TxError::UnknownAccount)
            } else {
                match checked_amount(
                    kind,
                    self.history,
                    self.disputes,
                    self.balances(e.client).locked,
                    e,
                ) {
                    Ok(amount) => Ok((kind, amount)),
                    Err(reason) => Err(reason),
                }
            },
        }
    }

    /// What the ledger keeps of an applied record of the given kind: a deposit
    /// or a withdrawal enters the history, a dispute opens, a resolve or a
    /// chargeback closes it again.
    pub open spec fn record_applied(self, e: Event, kind: TxType, balances: Balances) -> Ledger {
        Ledger {
            accounts: self.accounts.insert(e.client, balances),
            history: match kind {
                TxType::Deposit | TxType::Withdrawal => self.history.insert(
                    e.tx,
                    Transaction { kind, client: e.client, tx: e.tx, amount: e.amount },
                ),
                _ => self.history,
            },
            disputes: match kind {
                TxType::Dispute => self.disputes.insert(e.tx),
                TxType::Resolve | TxType::Chargeback => self.disputes.remove(e.tx),
                _ => self.disputes,
            },
        }
    }

    /// One record: the ledger that it leaves where it is applied, or the
    /// reason for which it is rejected.
    pub open spec fn apply(self, e: Event) -> Result<Ledger, TxError> {
        match self.request(e) {
            Err(reason) => Err(reason),
            Ok((kind, amount)) => match operate(self.balances(e.client), kind, amount@) {
                Err(reason) => Err(reason),
                Ok(balances) => Ok(self.record_applied(e, kind, balances)),
            },
        }
    }

    /// The ledger after one record: a rejected record leaves it as it was.
    pub open spec fn after(self, e: Event) -> Ledger {
        match self.apply(e) {
            Ok(next) => next,
            Err(_) => self,
        }
    }

    /// The ledger after a sequence of records, taken in order.
    pub open spec fn run(self, events: Seq<Event>) -> Ledger
        decreases events.len(),
    {
        if events.len() == 0 {
            self
        } else {
            self.run(events.drop_last()).after(events.last())
        }
    }

    /// The ledger that the record at position `i` of a run meets: the one
    /// that the records before it have left.
    pub open spec fn before(self, events: Seq<Event>, i: int) -> Ledger {
        self.run(events.take(i))
    }

    /// Whether the record at position `i` of a run is applied.
    pub open spec fn applied(self, events: Seq<Event>, i: int) -> bool {
        self.before(events, i).apply(events[i]) is Ok
    }
}

} // verus!
