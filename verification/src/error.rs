//! The reasons for which a record is rejected.

use vstd::prelude::*;

verus! {

/// Why a record was not applied. A rejected record changes nothing.
#[derive(Clone, Copy, Debug, PartialEq, Eq, Structural)]
pub enum TxError {
    /// The record's type is none of deposit, withdrawal, dispute, resolve,
    /// chargeback.
    UnknownTransactionType,
    /// The client has no account, and the record is not a deposit.
    UnknownAccount,
    /// The account is locked.
    LockedAccount,
    /// A deposit or withdrawal with this transaction id was applied before.
    DuplicateTransactionId,
    /// The record needs an amount and has none.
    MissingAmount,
    /// The amount is below zero.
    NegativeAmount,
    /// The amount is written with more than four digits after the point.
    PrecisionExceeded,
    /// A withdrawal asks for more than is available.
    InsufficientFunds,
    /// A dispute asks to hold more than is available.
    InsufficientAvailable,
    /// A resolve or chargeback asks for more than is held.
    InsufficientHeld,
    /// No deposit or withdrawal with this transaction id was applied.
    TransactionNotFound,
    /// The transaction is not a deposit: only deposits can be disputed.
    NotDisputable,
    /// The transaction is under dispute already.
    AlreadyDisputed,
    /// The transaction is not under dispute.
    NotDisputed,
}

} // verus!
