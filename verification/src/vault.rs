//! The vault: a ledger behind a reentrancy guard.
//!
//! A withdrawal pays out through a transfer that the caller of the vault
//! performs, and that transfer may call back into the vault before the
//! withdrawal has finished. Each withdrawal is therefore made of two steps
//! with the transfer between them. The protected withdrawal takes the guard
//! and debits the ledger before the transfer; the unprotected one checks the
//! balance, lets the transfer happen, and debits only afterwards, without
//! ever taking the guard.

use vstd::prelude::*;
use crate::address::Address;
use crate::amount::{at_least, Amount};
use crate::error::VaultError;
use crate::guard::ReentrancyGuard;
use crate::ledger::{Ledger, LedgerModel};

verus! {

/// An outbound transfer of value that a withdrawal asks for.
#[derive(Clone, Copy, Debug, PartialEq, Eq)]
pub struct Transfer {
    /// The account that is paid.
    pub to: Address,
    /// The amount that is paid.
    pub amount: Amount,
}

/// A notification that the vault asks to have broadcast after an operation
/// has succeeded. It has no effect on the vault.
#[derive(Clone, Copy, Debug, PartialEq, Eq)]
pub enum Event {
    /// `amount` was deposited by `user`.
    Deposit { user: Address, amount: Amount },
    /// `amount` was withdrawn by `user`.
    Withdrawal { user: Address, amount: Amount },
}

/// The state of a vault, as mathematics.
pub struct VaultModel {
    /// What the ledger records.
    pub ledger: LedgerModel,
    /// Whether a guarded operation is in progress.
    pub entered: bool,
}

/// What one step of a vault operation leads to: the state after it, and the
/// error with which it failed, if it did.
pub struct Step {
    pub next: VaultModel,
    pub error: Option<VaultError>,
}

impl Step {
    /// What a step that asks for a transfer returns.
    pub open spec fn transfer(self, to: Address, amount: Amount) -> Result<Transfer, VaultError> {
        match self.error {
            None => Ok(Transfer { to, amount }),
            Some(error) => Err(error),
        }
    }

    /// What a step that completes an operation returns: where it succeeded,
    /// the notification of it.
    pub open spec fn completion(self, event: Event) -> Result<Event, VaultError> {
        match self.error {
            None => Ok(event),
            Some(error) => Err(error),
        }
    }
}

impl VaultModel {
    /// The vault before any call: nothing deposited, the guard free.
    pub open spec fn new() -> VaultModel {
        VaultModel { ledger: LedgerModel::empty(), entered: false }
    }

    /// The step that fails with `error` and changes nothing.
    pub open spec fn fail(self, error: VaultError) -> Step {
        Step { next: self, error: Some(error) }
    }

    /// The step that succeeds and leads to `next`.
    pub open spec fn succeed(next: VaultModel) -> Step {
        Step { next, error: None }
    }

    /// A guarded deposit of `value` by `sender`.
    pub open spec fn deposit(self, sender: Address, value: nat) -> Step {
        if self.entered {
            self.fail(VaultError::ReentrantCall)
        } else if !self.ledger.can_credit(value) {
            self.fail(VaultError::ArithmeticOverflow)
        } else {
            Self::succeed(VaultModel { ledger: self.ledger.credit(sender, value), entered: false })
        }
    }

    /// The first step of a protected withdrawal: the guard is taken and the
    /// ledger debited, and both stay so while the transfer is made.
    pub open spec fn withdraw(self, sender: Address, amount: nat) -> Step {
        if self.entered {
            self.fail(VaultError::ReentrantCall)
        } else if !self.ledger.can_debit(sender, amount) {
            self.fail(VaultError::InsufficientBalance)
        } else {
            Self::succeed(VaultModel { ledger: self.ledger.debit(sender, amount), entered: true })
        }
    }

    /// The last step of a protected withdrawal: the guard is released.
    pub open spec fn finish_withdraw(self) -> VaultModel {
        VaultModel { ledger: self.ledger, entered: false }
    }

    /// The first step of an unprotected withdrawal: the balance is checked
    /// and nothing is recorded.
    pub open spec fn unsafe_withdraw(self, sender: Address, amount: nat) -> Step {
        if !self.ledger.can_debit(sender, amount) {
            self.fail(VaultError::InsufficientBalance)
        } else {
            Self::succeed(self)
        }
    }

    /// The last step of an unprotected withdrawal: the ledger is debited,
    /// whatever the guard says.
    pub open spec fn finish_unsafe_withdraw(self, to: Address, amount: nat) -> Step {
        if !self.ledger.can_debit(to, amount) {
            self.fail(VaultError::InsufficientBalance)
        } else {
            Self::succeed(VaultModel { ledger: self.ledger.debit(to, amount), entered: self.entered })
        }
    }
}

/// A custodial vault: per-account balances, their aggregate, and one guard
/// shared by the guarded operations.
pub struct VulnerableVault {
    ledger: Ledger,
    guard: ReentrancyGuard,
}

impl View for VulnerableVault {
    type V = VaultModel;

    closed spec fn view(&self) -> VaultModel {
        VaultModel { ledger: self.ledger@, entered: self.guard.entered() }
    }
}

impl VulnerableVault {
    /// The ledger lists no account twice.
    pub closed spec fn listed_once(&self) -> bool {
        self.ledger.listed_once()
    }

    /// The vault's invariant: its representation is sound and the aggregate
    /// total equals the sum of all balances.
    pub open spec fn well_formed(&self) -> bool {
        &&& self.listed_once()
        &&& self@.ledger.conserved()
    }

    /// A vault with no deposits and a free guard.
    pub fn new() -> (vault: VulnerableVault)
        ensures
            vault.well_formed(),
            vault@ == VaultModel::new(),
    {
        VulnerableVault { ledger: Ledger::new(), guard: ReentrancyGuard::new() }
    }

    /// Credits `value` to `sender`, under the guard.
    ///
    /// Fails with `ReentrantCall` while a guarded operation is in progress,
    /// and with `ArithmeticOverflow` where the aggregate total would pass
    /// 2^256 - 1. A failed deposit changes nothing; a successful one leaves
    /// the guard free and returns the notification of the deposit.
    pub fn deposit(&mut self, sender: Address, value: Amount) -> (r: Result<Event, VaultError>)
        requires
            old(self).well_formed(),
        ensures
            final(self).well_formed(),
            final(self)@ == old(self)@.deposit(sender, value@).next,
            r == old(self)@.deposit(sender, value@).completion(
                Event::Deposit { user: sender, amount: value },
            ),
            r is Err ==> *final(self) == *old(self),
    {
        match self.guard.enter() {
            Err(error) => Err(error),
            Ok(()) => {
                let credited = self.ledger.credit(sender, value);
                self.guard.exit();
                match credited {
                    Err(error) => Err(error),
                    Ok(()) => Ok(Event::Deposit { user: sender, amount: value }),
                }
            },
        }
    }

    /// Starts a protected withdrawal of `amount` by `sender`: takes the
    /// guard, debits the ledger, and hands back the transfer to make. The
    /// guard stays taken until `finish_withdraw`.
    ///
    /// Fails with `ReentrantCall` while a guarded operation is in progress,
    /// and with `InsufficientBalance` where the balance of `sender` is below
    /// `amount`. A failed call changes nothing and asks for no transfer.
    pub fn withdraw(&mut self, sender: Address, amount: Amount) -> (r: Result<
        Transfer,
        VaultError,
    >)
        requires
            old(self).well_formed(),
        ensures
            final(self).well_formed(),
            final(self)@ == old(self)@.withdraw(sender, amount@).next,
            r == old(self)@.withdraw(sender, amount@).transfer(sender, amount),
            r is Err ==> *final(self) == *old(self),
    {
        match self.guard.enter() {
            Err(error) => Err(error),
            Ok(()) => match self.ledger.debit(sender, amount) {
                Err(error) => {
                    self.guard.exit();
                    Err(error)
                },
                Ok(()) => Ok(Transfer { to: sender, amount }),
            },
        }
    }

    /// Finishes a protected withdrawal after its transfer was made: releases
    /// the guard and returns the notification of the withdrawal.
    pub fn finish_withdraw(&mut self, transfer: Transfer) -> (event: Event)
        requires
            old(self).well_formed(),
        ensures
            final(self).well_formed(),
            final(self)@ == old(self)@.finish_withdraw(),
            event == (Event::Withdrawal { user: transfer.to, amount: transfer.amount }),
    {
        self.guard.exit();
        Event::Withdrawal { user: transfer.to, amount: transfer.amount }
    }

    /// Starts an unprotected withdrawal of `amount` by `sender`: checks the
    /// balance and hands back the transfer to make. Nothing is recorded and
    /// the guard is neither consulted nor taken.
    ///
    /// Fails with `InsufficientBalance` where the balance of `sender` is
    /// below `amount`.
    pub fn unsafe_withdraw(&self, sender: Address, amount: Amount) -> (r: Result<
        Transfer,
        VaultError,
    >)
        requires
            self.well_formed(),
        ensures
            r == self@.unsafe_withdraw(sender, amount@).transfer(sender, amount),
    {
        if at_least(self.ledger.balance_of(sender), amount) {
            Ok(Transfer { to: sender, amount })
        } else {
            Err(VaultError::InsufficientBalance)
        }
    }

    /// Finishes an unprotected withdrawal after its transfer was made:
    /// debits the ledger by what was paid and returns the notification of
    /// the withdrawal.
    ///
    /// Fails with `InsufficientBalance`, changing nothing, where the balance
    /// of the paid account is by now below the amount paid.
    pub fn finish_unsafe_withdraw(&mut self, transfer: Transfer) -> (r: Result<Event, VaultError>)
        requires
            old(self).well_formed(),
        ensures
            final(self).well_formed(),
            final(self)@ == old(self)@.finish_unsafe_withdraw(transfer.to, transfer.amount@).next,
            r == old(self)@.finish_unsafe_withdraw(transfer.to, transfer.amount@).completion(
                Event::Withdrawal { user: transfer.to, amount: transfer.amount },
            ),
            r is Err ==> *final(self) == *old(self),
    {
        match self.ledger.debit(transfer.to, transfer.amount) {
            Err(error) => Err(error),
            Ok(()) => Ok(Event::Withdrawal { user: transfer.to, amount: transfer.amount }),
        }
    }

    /// The recorded balance of `user`: zero if it never deposited.
    pub fn balance_of(&self, user: Address) -> (balance: Amount)
        requires
            self.well_formed(),
        ensures
            balance@ == self@.ledger.balance_of(user),
    {
        self.ledger.balance_of(user)
    }

    /// The aggregate of all balances.
    pub fn total_deposits(&self) -> (total: Amount)
        ensures
            total@ == self@.ledger.total,
    {
        self.ledger.total_deposits()
    }

    /// Whether a guarded operation is in progress.
    pub fn is_entered(&self) -> (entered: bool)
        ensures
            entered == self@.entered,
    {
        self.guard.is_entered()
    }
}

} // verus!
