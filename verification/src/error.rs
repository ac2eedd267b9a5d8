//! The ways in which a vault operation can fail.

use vstd::prelude::*;

verus! {

/// A failure of a vault operation. Every failure aborts the call that raised
/// it and leaves the vault as it was before that call.
#[derive(Clone, Copy, Debug, PartialEq, Eq, Structural)]
pub enum VaultError {
    /// A guarded operation was started while another one was still in progress.
    ReentrantCall,
    /// A debit asked for more than the account's recorded balance.
    InsufficientBalance,
    /// A credit would take a balance or the aggregate total past 2^256 - 1.
    ArithmeticOverflow,
}

impl VaultError {
    /// The text that accompanies the failure when it is surfaced to a caller.
    pub fn message(&self) -> (text: &'static str)
        ensures
            text@ == (match *self {
                VaultError::ReentrantCall => "ReentrancyGuard: reentrant call"@,
                VaultError::InsufficientBalance => "Insufficient balance"@,
                VaultError::ArithmeticOverflow => "Arithmetic overflow"@,
            }),
    {
        match self {
            VaultError::ReentrantCall => "ReentrancyGuard: reentrant call",
            VaultError::InsufficientBalance => "Insufficient balance",
            VaultError::ArithmeticOverflow => "Arithmetic overflow",
        }
    }
}

} // verus!
