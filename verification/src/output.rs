//! The final balances as rows of text, one per client.

use crate::account::Account;
use crate::amount::{ends_in_four_digits, four_digit_text, Amount};
use vstd::prelude::*;
use vstd::string::to_string_from_display_ensures;

verus! {

/// The names of the five columns: `client`, `available`, `held`, `total`,
/// `locked`.
pub fn header_row() -> (row: Vec<String>)
    ensures
        row@.len() == 5,
        row@[0]@ == "client"@,
        row@[1]@ == "available"@,
        row@[2]@ == "held"@,
        row@[3]@ == "total"@,
        row@[4]@ == "locked"@,
{
    let mut row: Vec<String> = Vec::new();
    row.push("client".to_owned());
    row.push("available".to_owned());
    row.push("held".to_owned());
    row.push("total".to_owned());
    row.push("locked".to_owned());
    row
}

/// Whether the three balances of the account can be written as text.
pub open spec fn printable(account: Account) -> bool {
    &&& account.available.printable()
    &&& account.held.printable()
    &&& account.total.printable()
}

/// Whether `text` is the amount as it is written out: with four digits after
/// the point.
pub open spec fn is_text_of(text: Seq<char>, amount: Amount) -> bool {
    &&& text == four_digit_text(amount.mantissa() as int, amount.scale() as int)
    &&& ends_in_four_digits(text)
}

/// The row of one client: its id, then what it has available, held and in
/// total, each with four digits after the point, then `true` or `false` for
/// whether the account is locked. It is `None` where one of the balances
/// cannot be written as text.
pub fn account_row(client: u16, account: &Account) -> (r: Option<Vec<String>>)
    ensures
        r is Some <==> printable(*account),
        r matches Some(row) ==> {
            &&& row@.len() == 5
            &&& to_string_from_display_ensures::<u16>(&client, row@[0])
            &&& is_text_of(row@[1]@, account.available)
            &&& is_text_of(row@[2]@, account.held)
            &&& is_text_of(row@[3]@, account.total)
            &&& row@[4]@ == if account.locked {
                "true"@
            } else {
                "false"@
            }
        },
{
    let available = account.available.to_text();
    let held = account.held.to_text();
    let total = account.total.to_text();
    match (available, held, total) {
        (Some(available), Some(held), Some(total)) => {
            let mut row: Vec<String> = Vec::new();
            row.push(client.to_string());
            row.push(available);
            row.push(held);
            row.push(total);
            if account.locked {
                row.push("true".to_owned());
            } else {
                row.push("false".to_owned());
            }
            Some(row)
        },
        _ => None,
    }
}

} // verus!
