//! The reentrancy guard: a two-valued status shared by all guarded operations.

use vstd::prelude::*;
use crate::error::VaultError;

verus! {

/// Whether a guarded operation is currently in progress.
#[derive(Clone, Copy, Debug, PartialEq, Eq, Structural)]
pub enum GuardStatus {
    NotEntered,
    Entered,
}

/// A mutual-exclusion flag for one critical section. At most one guarded
/// operation holds it at a time; a nested attempt to take it fails.
#[derive(Clone, Copy, Debug, PartialEq, Eq, Structural)]
pub struct ReentrancyGuard {
    pub status: GuardStatus,
}

impl ReentrancyGuard {
    /// True when a guarded operation holds the guard.
    pub open spec fn entered(&self) -> bool {
        self.status == GuardStatus::Entered
    }

    /// A guard that nobody holds.
    pub fn new() -> (guard: Self)
        ensures
            !guard.entered(),
    {
        ReentrancyGuard { status: GuardStatus::NotEntered }
    }

    /// Takes the guard. Fails, changing nothing, when it is already held.
    pub fn enter(&mut self) -> (r: Result<(), VaultError>)
        ensures
            old(self).entered() ==> r == Err::<(), VaultError>(VaultError::ReentrantCall)
                && *final(self) == *old(self),
            !old(self).entered() ==> r == Ok::<(), VaultError>(()) && final(self).entered(),
    {
        match self.status {
            GuardStatus::Entered => Err(VaultError::ReentrantCall),
            GuardStatus::NotEntered => {
                self.status = GuardStatus::Entered;
                Ok(())
            },
        }
    }

    /// Releases the guard, whether or not it was held.
    pub fn exit(&mut self)
        ensures
            !final(self).entered(),
    {
        self.status = GuardStatus::NotEntered;
    }

    /// Whether a guarded operation holds the guard.
    pub fn is_entered(&self) -> (r: bool)
        ensures
            r == self.entered(),
    {
        match self.status {
            GuardStatus::Entered => true,
            GuardStatus::NotEntered => false,
        }
    }
}

} // verus!
