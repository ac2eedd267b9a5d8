//! A custodial value vault: a per-account balance ledger with an aggregate
//! total, and a reentrancy guard that brackets the guarded operations.
//!
//! The vault offers a guarded deposit and two withdrawals. The protected
//! withdrawal commits its debit before the outbound transfer and holds the
//! guard across it; the unprotected one pays out first and debits afterwards,
//! without the guard, and can therefore be re-entered.

pub mod address;
pub mod amount;
pub mod error;
pub mod guard;
pub mod holdings;
pub mod ledger;
pub mod theorems;
pub mod vault;

pub use crate::address::Address;
pub use crate::amount::Amount;
pub use crate::error::VaultError;
pub use crate::guard::{GuardStatus, ReentrancyGuard};
pub use crate::ledger::Ledger;
pub use crate::vault::{Event, Transfer, VulnerableVault};
