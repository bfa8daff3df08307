//! One client's account and the five operations that change it.
//!
//! Each operation either applies in full or fails and leaves the account as
//! it was. What it does is stated over [`Balances`], the account's balances
//! read as exact numbers.

use crate::amount::{difference_fits, is_difference, is_sum, sum_fits, Amount};
use crate::error::TxError;
use vstd::prelude::*;

verus! {

/// An account's balances as exact numbers, each counted in steps of `10^-28`
/// as the view of an [`Amount`] is.
pub struct Balances {
    /// What the client may withdraw.
    pub available: int,
    /// What is frozen by open disputes.
    pub held: int,
    /// Everything the account holds.
    pub total: int,
    /// Whether a chargeback has frozen the account.
    pub locked: bool,
}

impl Balances {
    /// The balances of a new account: nothing, and not locked.
    pub open spec fn empty() -> Balances {
        Balances { available: 0, held: 0, total: 0, locked: false }
    }

    /// The total is what is available plus what is held.
    pub open spec fn balanced(self) -> bool {
        self.total == self.available + self.held
    }

    /// A deposit of `amount`: refused on a locked account, else added to what
    /// is available and to the total.
    pub open spec fn deposit(self, amount: int) -> Result<Balances, TxError> {
        if self.locked {
            Err(TxError::LockedAccount)
        } else {
            Ok(
                Balances {
                    available: self.available + amount,
                    total: self.total + amount,
                    ..self
                },
            )
        }
    }

    /// A withdrawal of `amount`: refused on a locked account and where less
    /// than `amount` is available, else taken from what is available and from
    /// the total.
    pub open spec fn withdraw(self, amount: int) -> Result<Balances, TxError> {
        if self.locked {
            Err(TxError::LockedAccount)
        } else if self.available >= amount {
            Ok(
                Balances {
                    available: self.available - amount,
                    total: self.total - amount,
                    ..self
                },
            )
        } else {
            Err(TxError::InsufficientFunds)
        }
    }

    /// A dispute over `amount`: refused on a locked account and where less
    /// than `amount` is available, else moved from available to held.
    pub open spec fn hold(self, amount: int) -> Result<Balances, TxError> {
        if self.locked {
            Err(TxError::LockedAccount)
        } else if self.available >= amount {
            Ok(
                Balances {
                    available: self.available - amount,
                    held: self.held + amount,
                    ..self
                },
            )
        } else {
            Err(TxError::InsufficientAvailable)
        }
    }

    /// The release of a disputed `amount`: refused on a locked account and
    /// where less than `amount` is held, else moved from held back to
    /// available.
    pub open spec fn release(self, amount: int) -> Result<Balances, TxError> {
        if self.locked {
            Err(TxError::LockedAccount)
        } else if self.held >= amount {
            Ok(
                Balances {
                    held: self.held - amount,
                    available: self.available + amount,
                    ..self
                },
            )
        } else {
            Err(TxError::InsufficientHeld)
        }
    }

    /// The loss of a disputed `amount`: refused where less than `amount` is
    /// held, else taken from held and from the total, and the account is
    /// locked. It does not ask whether the account is locked already.
    pub open spec fn forfeit(self, amount: int) -> Result<Balances, TxError> {
        if self.held >= amount {
            Ok(
                Balances {
                    held: self.held - amount,
                    total: self.total - amount,
                    locked: true,
                    ..self
                },
            )
        } else {
            Err(TxError::InsufficientHeld)
        }
    }
}

/// A client's account.
#[derive(Clone, Copy, Debug)]
pub struct Account {
    /// What the client may withdraw.
    pub available: Amount,
    /// What is frozen by open disputes.
    pub held: Amount,
    /// Everything the account holds.
    pub total: Amount,
    /// Whether a chargeback has frozen the account.
    pub locked: bool,
}

impl View for Account {
    type V = Balances;

    open spec fn view(&self) -> Balances {
        Balances {
            available: self.available@,
            held: self.held@,
            total: self.total@,
            locked: self.locked,
        }
    }
}

impl Account {
    /// Whether the account is as a new one is: every balance is zero at
    /// scale 0, and it is not locked.
    pub open spec fn is_new(self) -> bool {
        &&& self.available.mantissa() == 0 && self.available.scale() == 0
        &&& self.held.mantissa() == 0 && self.held.scale() == 0
        &&& self.total.mantissa() == 0 && self.total.scale() == 0
        &&& !self.locked
    }

    /// `after` is a new account with `amount` deposited: what is available
    /// and the total are written as `amount` is, nothing is held.
    pub open spec fn opened_with(amount: Amount, after: Account) -> bool {
        &&& after.available.mantissa() == amount.mantissa()
        &&& after.available.scale() == amount.scale()
        &&& after.total.mantissa() == amount.mantissa()
        &&& after.total.scale() == amount.scale()
        &&& after.held.mantissa() == 0 && after.held.scale() == 0
        &&& !after.locked
    }

    /// `after` is this account with `amount` deposited, balance by balance as
    /// it is written.
    pub open spec fn deposited(self, amount: Amount, after: Account) -> bool {
        &&& is_sum(after.available, self.available, amount)
        &&& is_sum(after.total, self.total, amount)
        &&& after.held == self.held
        &&& after.locked == self.locked
    }

    /// `after` is this account with `amount` withdrawn.
    pub open spec fn withdrawn(self, amount: Amount, after: Account) -> bool {
        &&& is_difference(after.available, self.available, amount)
        &&& is_difference(after.total, self.total, amount)
        &&& after.held == self.held
        &&& after.locked == self.locked
    }

    /// `after` is this account with `amount` moved from available to held.
    pub open spec fn disputed(self, amount: Amount, after: Account) -> bool {
        &&& is_difference(after.available, self.available, amount)
        &&& is_sum(after.held, self.held, amount)
        &&& after.total == self.total
        &&& after.locked == self.locked
    }

    /// `after` is this account with `amount` moved from held back to
    /// available.
    pub open spec fn resolved(self, amount: Amount, after: Account) -> bool {
        &&& is_difference(after.held, self.held, amount)
        &&& is_sum(after.available, self.available, amount)
        &&& after.total == self.total
        &&& after.locked == self.locked
    }

    /// `after` is this account with `amount` taken from held and from the
    /// total, and locked.
    pub open spec fn charged_back(self, amount: Amount, after: Account) -> bool {
        &&& is_difference(after.held, self.held, amount)
        &&& is_difference(after.total, self.total, amount)
        &&& after.available == self.available
        &&& after.locked
    }

    /// Whether [`Account::deposit`] can do its arithmetic without rounding:
    /// it adds `amount` to what is available and to the total, unless the
    /// account is locked.
    pub open spec fn deposit_fits(&self, amount: Amount) -> bool {
        self@.deposit(amount@) is Ok ==> sum_fits(self.available, amount) && sum_fits(
            self.total,
            amount,
        )
    }

    /// Whether [`Account::withdraw`] can do its arithmetic without rounding.
    pub open spec fn withdraw_fits(&self, amount: Amount) -> bool {
        self@.withdraw(amount@) is Ok ==> difference_fits(self.available, amount)
            && difference_fits(self.total, amount)
    }

    /// Whether [`Account::apply_dispute`] can do its arithmetic without
    /// rounding.
    pub open spec fn dispute_fits(&self, amount: Amount) -> bool {
        self@.hold(amount@) is Ok ==> difference_fits(self.available, amount) && sum_fits(
            self.held,
            amount,
        )
    }

    /// Whether [`Account::resolve_dispute`] can do its arithmetic without
    /// rounding.
    pub open spec fn resolve_fits(&self, amount: Amount) -> bool {
        self@.release(amount@) is Ok ==> difference_fits(self.held, amount) && sum_fits(
            self.available,
            amount,
        )
    }

    /// Whether [`Account::chargeback`] can do its arithmetic without rounding.
    pub open spec fn chargeback_fits(&self, amount: Amount) -> bool {
        self@.forfeit(amount@) is Ok ==> difference_fits(self.held, amount) && difference_fits(
            self.total,
            amount,
        )
    }

    /// Whether [`Account::deposit`] can do its arithmetic without rounding.
    pub fn can_deposit(&self, amount: &Amount) -> (ok: bool)
        ensures
            ok == self.deposit_fits(*amount),
    {
        self.locked || (self.available.can_add(amount) && self.total.can_add(amount))
    }

    /// Whether [`Account::withdraw`] can do its arithmetic without rounding.
    pub fn can_withdraw(&self, amount: &Amount) -> (ok: bool)
        ensures
            ok == self.withdraw_fits(*amount),
    {
        self.locked || !self.available.ge(amount) || (self.available.can_sub(amount)
            && self.total.can_sub(amount))
    }

    /// Whether [`Account::apply_dispute`] can do its arithmetic without
    /// rounding.
    pub fn can_apply_dispute(&self, amount: &Amount) -> (ok: bool)
        ensures
            ok == self.dispute_fits(*amount),
    {
        self.locked || !self.available.ge(amount) || (self.available.can_sub(amount)
            && self.held.can_add(amount))
    }

    /// Whether [`Account::resolve_dispute`] can do its arithmetic without
    /// rounding.
    pub fn can_resolve_dispute(&self, amount: &Amount) -> (ok: bool)
        ensures
            ok == self.resolve_fits(*amount),
    {
        self.locked || !self.held.ge(amount) || (self.held.can_sub(amount)
            && self.available.can_add(amount))
    }

    /// Whether [`Account::chargeback`] can do its arithmetic without rounding.
    pub fn can_chargeback(&self, amount: &Amount) -> (ok: bool)
        ensures
            ok == self.chargeback_fits(*amount),
    {
        !self.held.ge(amount) || (self.held.can_sub(amount) && self.total.can_sub(amount))
    }

    /// A new account: no funds, not locked.
    pub fn new() -> (account: Account)
        ensures
            account.is_new(),
            account@ == Balances::empty(),
            account@.balanced(),
    {
        Account {
            available: Amount::zero(),
            held: Amount::zero(),
            total: Amount::zero(),
            locked: false,
        }
    }

    /// Adds `amount` to what is available and to the total. Fails with
    /// `LockedAccount` on a locked account.
    pub fn deposit(&mut self, amount: Amount) -> (r: Result<(), TxError>)
        requires
            old(self).deposit_fits(amount),
        ensures
            match old(self)@.deposit(amount@) {
                Ok(balances) => {
                    &&& r is Ok
                    &&& final(self)@ == balances
                    &&& old(self).deposited(amount, *final(self))
                },
                Err(e) => r == Err::<(), TxError>(e) && *final(self) == *old(self),
            },
            old(self)@.balanced() ==> final(self)@.balanced(),
    {
        if self.locked {
            return Err(TxError::LockedAccount);
        }
        self.available = self.available.plus(amount);
        self.total = self.total.plus(amount);
        Ok(())
    }

    /// Takes `amount` from what is available and from the total. Fails with
    /// `LockedAccount` on a locked account, and with `InsufficientFunds` where
    /// less than `amount` is available.
    pub fn withdraw(&mut self, amount: Amount) -> (r: Result<(), TxError>)
        requires
            old(self).withdraw_fits(amount),
        ensures
            match old(self)@.withdraw(amount@) {
                Ok(balances) => {
                    &&& r is Ok
                    &&& final(self)@ == balances
                    &&& old(self).withdrawn(amount, *final(self))
                },
                Err(e) => r == Err::<(), TxError>(e) && *final(self) == *old(self),
            },
            old(self)@.balanced() ==> final(self)@.balanced(),
    {
        if self.locked {
            return Err(TxError::LockedAccount);
        }
        if self.available.ge(&amount) {
            self.available = self.available.minus(amount);
            self.total = self.total.minus(amount);
            Ok(())
        } else {
            Err(TxError::InsufficientFunds)
        }
    }

    /// Opens a dispute over `amount`: moves it from available to held. Fails
    /// with `LockedAccount` on a locked account, and with
    /// `InsufficientAvailable` where less than `amount` is available.
    pub fn apply_dispute(&mut self, amount: Amount) -> (r: Result<(), TxError>)
        requires
            old(self).dispute_fits(amount),
        ensures
            match old(self)@.hold(amount@) {
                Ok(balances) => {
                    &&& r is Ok
                    &&& final(self)@ == balances
                    &&& old(self).disputed(amount, *final(self))
                },
                Err(e) => r == Err::<(), TxError>(e) && *final(self) == *old(self),
            },
            old(self)@.balanced() ==> final(self)@.balanced(),
    {
        if self.locked {
            return Err(TxError::LockedAccount);
        }
        if self.available.ge(&amount) {
            self.available = self.available.minus(amount);
            self.held = self.held.plus(amount);
            Ok(())
        } else {
            Err(TxError::InsufficientAvailable)
        }
    }

    /// Closes a dispute over `amount` in the client's favour: moves it from
    /// held back to available. Fails with `LockedAccount` on a locked account,
    /// and with `InsufficientHeld` where less than `amount` is held.
    pub fn resolve_dispute(&mut self, amount: Amount) -> (r: Result<(), TxError>)
        requires
            old(self).resolve_fits(amount),
        ensures
            match old(self)@.release(amount@) {
                Ok(balances) => {
                    &&& r is Ok
                    &&& final(self)@ == balances
                    &&& old(self).resolved(amount, *final(self))
                },
                Err(e) => r == Err::<(), TxError>(e) && *final(self) == *old(self),
            },
            old(self)@.balanced() ==> final(self)@.balanced(),
    {
        if self.locked {
            return Err(TxError::LockedAccount);
        }
        if self.held.ge(&amount) {
            self.held = self.held.minus(amount);
            self.available = self.available.plus(amount);
            Ok(())
        } else {
            Err(TxError::InsufficientHeld)
        }
    }

    /// Closes a dispute over `amount` against the client: takes it from held
    /// and from the total, and locks the account. Fails with
    /// `InsufficientHeld` where less than `amount` is held. Whether the
    /// account is locked already is for the caller to ask.
    pub fn chargeback(&mut self, amount: Amount) -> (r: Result<(), TxError>)
        requires
            old(self).chargeback_fits(amount),
        ensures
            match old(self)@.forfeit(amount@) {
                Ok(balances) => {
                    &&& r is Ok
                    &&& final(self)@ == balances
                    &&& old(self).charged_back(amount, *final(self))
                },
                Err(e) => r == Err::<(), TxError>(e) && *final(self) == *old(self),
            },
            old(self)@.balanced() ==> final(self)@.balanced(),
    {
        if self.held.ge(&amount) {
            self.total = self.total.minus(amount);
            self.held = self.held.minus(amount);
            self.locked = true;
            Ok(())
        } else {
            Err(TxError::InsufficientHeld)
        }
    }
}

} // verus!
