//! A batch ledger: it replays an ordered stream of deposits, withdrawals,
//! disputes, resolves and chargebacks, and keeps one balance per client.
//!
//! Every amount is an exact decimal, every account operation either applies
//! in full or leaves the account as it was, and the rules that decide which
//! record is applied and which is rejected are stated as contracts and proved.
//!
//! - [`amount`]: exact decimals. The arithmetic is `rust_decimal`'s; it is
//!   called only where it neither rounds nor overflows.
//! - [`account`]: an account and its five operations.
//! - [`record`]: records as they arrive and as the history keeps them.
//! - [`ledger`]: the state machine that a run of records goes through, as a
//!   specification.
//! - [`router`]: the functions that process a record, each tied to the state
//!   machine by its contract.
//! - [`laws`]: what holds of every run, proved of the state machine.
//! - [`output`]: the final balances as rows of text.
//! - [`error`]: the reasons for which a record is rejected.

pub mod account;
pub mod amount;
pub mod error;
pub mod laws;
pub mod ledger;
pub mod output;
pub mod record;
pub mod router;

pub use account::{Account, Balances};
pub use amount::{has_valid_precision, Amount};
pub use error::TxError;
pub use ledger::Ledger;
pub use output::{account_row, header_row};
pub use record::{Event, Record, Transaction, TxType};
pub use router::{
    can_dispatch, can_process, dispatch, process_chargeback, process_deposit, process_dispute,
    process_resolve, process_transaction, process_withdrawal, try_process_transaction,
    validate_amount, State,
};
