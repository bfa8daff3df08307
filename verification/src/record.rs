//! Records as they arrive, and transactions as the ledger keeps them.

use crate::amount::Amount;
use crate::error::TxError;
use vstd::prelude::*;

verus! {

/// The five kinds of record.
#[derive(Clone, Copy, Debug, PartialEq, Eq, Structural)]
pub enum TxType {
    Deposit,
    Withdrawal,
    Dispute,
    Resolve,
    Chargeback,
}

/// The text that `str::to_lowercase` returns for `text`.
pub uninterp spec fn lowercase(text: Seq<char>) -> Seq<char>;

/// Lowers the case of a text: `str::to_lowercase`.
///
/// Trusted: the result depends on the text alone. Nothing is claimed of what
/// it is.
#[verifier::external_body]
fn to_lowercase(text: &str) -> (lower: String)
    ensures
        lower@ == lowercase(text@),
{
    text.to_lowercase()
}

/// Whether `text` reads `word`.
fn reads(text: &String, word: &str) -> (r: bool)
    ensures
        r == (text@ == word@),
{
    let word = word.to_owned();
    *text == word
}

impl TxType {
    /// The kind that a lower-case word names, if it names one.
    pub open spec fn named(word: Seq<char>) -> Option<TxType> {
        if word == "deposit"@ {
            Some(TxType::Deposit)
        } else if word == "withdrawal"@ {
            Some(TxType::Withdrawal)
        } else if word == "dispute"@ {
            Some(TxType::Dispute)
        } else if word == "resolve"@ {
            Some(TxType::Resolve)
        } else if word == "chargeback"@ {
            Some(TxType::Chargeback)
        } else {
            None
        }
    }

    /// The kind that a text names once its case is lowered, if it names one.
    pub open spec fn parse(text: Seq<char>) -> Option<TxType> {
        Self::named(lowercase(text))
    }

    /// Reads a kind from a word that is in lower case already: one of
    /// `deposit`, `withdrawal`, `dispute`, `resolve`, `chargeback`. Any other
    /// word fails with `UnknownTransactionType`.
    pub fn from_lowercase(word: &str) -> (r: Result<TxType, TxError>)
        ensures
            r == match Self::named(word@) {
                Some(kind) => Ok::<TxType, TxError>(kind),
                None => Err(TxError::UnknownTransactionType),
            },
    {
        let word = word.to_owned();
        if reads(&word, "deposit") {
            Ok(TxType::Deposit)
        } else if reads(&word, "withdrawal") {
            Ok(TxType::Withdrawal)
        } else if reads(&word, "dispute") {
            Ok(TxType::Dispute)
        } else if reads(&word, "resolve") {
            Ok(TxType::Resolve)
        } else if reads(&word, "chargeback") {
            Ok(TxType::Chargeback)
        } else {
            Err(TxError::UnknownTransactionType)
        }
    }

    /// Reads a kind from a text, whatever its case: `Deposit` and `DEPOSIT`
    /// read as `deposit` does. A text that names no kind fails with
    /// `UnknownTransactionType`.
    pub fn from_str(text: &str) -> (r: Result<TxType, TxError>)
        ensures
            r == match Self::parse(text@) {
                Some(kind) => Ok::<TxType, TxError>(kind),
                None => Err(TxError::UnknownTransactionType),
            },
    {
        let lower = to_lowercase(text);
        Self::from_lowercase(lower.as_str())
    }
}

/// Each of the five words names its own kind: none of them is taken for
/// another.
pub proof fn lemma_words_name_their_kinds()
    ensures
        TxType::named("deposit"@) == Some(TxType::Deposit),
        TxType::named("withdrawal"@) == Some(TxType::Withdrawal),
        TxType::named("dispute"@) == Some(TxType::Dispute),
        TxType::named("resolve"@) == Some(TxType::Resolve),
        TxType::named("chargeback"@) == Some(TxType::Chargeback),
{
    reveal_strlit("deposit");
    reveal_strlit("withdrawal");
    reveal_strlit("dispute");
    reveal_strlit("resolve");
    reveal_strlit("chargeback");
    // the words of seven letters differ in their second letter
    assert("deposit"@[1] == 'e' && "dispute"@[1] == 'i' && "resolve"@[0] == 'r');
    // the two words of ten letters differ in their first
    assert("withdrawal"@.len() == 10 && "withdrawal"@[0] == 'w');
    assert("chargeback"@.len() == 10 && "chargeback"@[0] == 'c');
    assert("deposit"@.len() == 7 && "deposit"@[0] == 'd');
    assert("dispute"@.len() == 7 && "dispute"@[0] == 'd');
    assert("resolve"@.len() == 7);
}

/// A record as it arrives: its kind is still a text.
#[derive(Debug)]
pub struct Record {
    /// The kind of the record, in any case.
    pub tx_type: String,
    /// The client the record is for.
    pub client: u16,
    /// The transaction the record makes or refers to.
    pub tx: u32,
    /// The amount. Deposits and withdrawals need one; for the other kinds it
    /// is not read.
    pub amount: Option<Amount>,
}

/// What the ledger reads in a record.
pub struct Event {
    /// The kind that the record's text names, if it names one.
    pub kind: Option<TxType>,
    /// The client the record is for.
    pub client: u16,
    /// The transaction the record makes or refers to.
    pub tx: u32,
    /// The amount, where the record has one.
    pub amount: Option<Amount>,
}

impl View for Record {
    type V = Event;

    open spec fn view(&self) -> Event {
        Event {
            kind: TxType::parse(self.tx_type@),
            client: self.client,
            tx: self.tx,
            amount: self.amount,
        }
    }
}

impl Clone for Record {
    fn clone(&self) -> (copy: Record)
        ensures
            copy == *self,
    {
        Record {
            tx_type: self.tx_type.clone(),
            client: self.client,
            tx: self.tx,
            amount: self.amount,
        }
    }
}

impl Record {
    /// What the ledger reads in the record once its kind is known to be
    /// `kind`.
    pub open spec fn of_kind(&self, kind: TxType) -> Event {
        Event { kind: Some(kind), client: self.client, tx: self.tx, amount: self.amount }
    }
}

/// A deposit or withdrawal that was applied, as the history keeps it.
#[derive(Clone, Copy, Debug)]
pub struct Transaction {
    /// Whether it was a deposit or a withdrawal.
    pub kind: TxType,
    /// The client it was for.
    pub client: u16,
    /// Its transaction id.
    pub tx: u32,
    /// Its amount.
    pub amount: Option<Amount>,
}

} // verus!
