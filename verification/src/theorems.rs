//! What holds of every ledger and every vault, whatever calls are made and in
//! whatever order, nested ones included.

use vstd::prelude::*;
use crate::address::Address;
use crate::error::VaultError;
use crate::ledger::{lemma_credit_conserves, lemma_debit_conserves, LedgerModel};
use crate::holdings::lemma_no_balances;
use crate::vault::VaultModel;

verus! {

/// One operation on a ledger.
pub enum LedgerOp {
    Credit { account: Address, amount: nat },
    Debit { account: Address, amount: nat },
}

/// The ledger after one operation: changed where the operation succeeds, as
/// it was where the operation fails.
pub open spec fn apply(ledger: LedgerModel, op: LedgerOp) -> LedgerModel {
    match op {
        LedgerOp::Credit { account, amount } => if ledger.can_credit(amount) {
            ledger.credit(account, amount)
        } else {
            ledger
        },
        LedgerOp::Debit { account, amount } => if ledger.can_debit(account, amount) {
            ledger.debit(account, amount)
        } else {
            ledger
        },
    }
}

/// The ledger after a sequence of operations, made one after the other.
pub open spec fn apply_all(ledger: LedgerModel, ops: Seq<LedgerOp>) -> LedgerModel
    decreases ops.len(),
{
    if ops.len() == 0 {
        ledger
    } else {
        apply(apply_all(ledger, ops.drop_last()), ops.last())
    }
}

/// Conservation: after any sequence of credits and debits on a new ledger,
/// the aggregate total equals the sum of all balances. As every prefix of a
/// sequence is a sequence, this holds after each single operation too.
pub proof fn theorem_conservation(ops: Seq<LedgerOp>)
    ensures
        apply_all(LedgerModel::empty(), ops).conserved(),
    decreases ops.len(),
{
    if ops.len() == 0 {
        lemma_no_balances();
    } else {
        theorem_conservation(ops.drop_last());
        let before = apply_all(LedgerModel::empty(), ops.drop_last());
        match ops.last() {
            LedgerOp::Credit { account, amount } => {
                lemma_credit_conserves(before, account, amount);
            },
            LedgerOp::Debit { account, amount } => {
                if before.can_debit(account, amount) {
                    lemma_debit_conserves(before, account, amount);
                }
            },
        }
    }
}

/// One call into a vault. A withdrawal is two calls, with its transfer
/// between them; calls that a transfer makes come between those two.
pub enum VaultCall {
    Deposit { sender: Address, value: nat },
    Withdraw { sender: Address, amount: nat },
    FinishWithdraw,
    UnsafeWithdraw { sender: Address, amount: nat },
    FinishUnsafeWithdraw { to: Address, amount: nat },
}

/// The vault after one call.
pub open spec fn after_call(vault: VaultModel, call: VaultCall) -> VaultModel {
    match call {
        VaultCall::Deposit { sender, value } => vault.deposit(sender, value).next,
        VaultCall::Withdraw { sender, amount } => vault.withdraw(sender, amount).next,
        VaultCall::FinishWithdraw => vault.finish_withdraw(),
        VaultCall::UnsafeWithdraw { sender, amount } => vault.unsafe_withdraw(sender, amount).next,
        VaultCall::FinishUnsafeWithdraw { to, amount } => vault.finish_unsafe_withdraw(
            to,
            amount,
        ).next,
    }
}

/// The vault after a sequence of calls, made one after the other.
pub open spec fn after_calls(vault: VaultModel, calls: Seq<VaultCall>) -> VaultModel
    decreases calls.len(),
{
    if calls.len() == 0 {
        vault
    } else {
        after_call(after_calls(vault, calls.drop_last()), calls.last())
    }
}

/// One call keeps the ledger of a vault conserved.
pub proof fn lemma_call_conserves(vault: VaultModel, call: VaultCall)
    requires
        vault.ledger.conserved(),
    ensures
        after_call(vault, call).ledger.conserved(),
{
    match call {
        VaultCall::Deposit { sender, value } => {
            lemma_credit_conserves(vault.ledger, sender, value);
        },
        VaultCall::Withdraw { sender, amount } => {
            if vault.ledger.can_debit(sender, amount) {
                lemma_debit_conserves(vault.ledger, sender, amount);
            }
        },
        VaultCall::FinishWithdraw => {},
        VaultCall::UnsafeWithdraw { sender, amount } => {},
        VaultCall::FinishUnsafeWithdraw { to, amount } => {
            if vault.ledger.can_debit(to, amount) {
                lemma_debit_conserves(vault.ledger, to, amount);
            }
        },
    }
}

/// Conservation in the vault: after any sequence of calls on a new vault,
/// protected or not, nested or not, failed or not, the aggregate total
/// equals the sum of all balances.
pub proof fn theorem_vault_conservation(calls: Seq<VaultCall>)
    ensures
        after_calls(VaultModel::new(), calls).ledger.conserved(),
    decreases calls.len(),
{
    if calls.len() == 0 {
        lemma_no_balances();
    } else {
        theorem_vault_conservation(calls.drop_last());
        lemma_call_conserves(after_calls(VaultModel::new(), calls.drop_last()), calls.last());
    }
}

/// Guard exclusivity: while a guarded operation is in progress, a deposit
/// and the start of a protected withdrawal both fail with `ReentrantCall`,
/// and leave the guard and the ledger as they were.
pub proof fn theorem_guard_exclusive(vault: VaultModel, sender: Address, amount: nat)
    requires
        vault.entered,
    ensures
        vault.deposit(sender, amount) == vault.fail(VaultError::ReentrantCall),
        vault.withdraw(sender, amount) == vault.fail(VaultError::ReentrantCall),
        vault.fail(VaultError::ReentrantCall).next == vault,
{
}

/// Debit safety: a debit of more than the balance is refused by either
/// withdrawal with `InsufficientBalance`, and changes nothing.
pub proof fn theorem_debit_safety(vault: VaultModel, sender: Address, amount: nat)
    requires
        amount > vault.ledger.balance_of(sender),
    ensures
        !vault.entered ==> vault.withdraw(sender, amount) == vault.fail(
            VaultError::InsufficientBalance,
        ),
        vault.unsafe_withdraw(sender, amount) == vault.fail(VaultError::InsufficientBalance),
        vault.finish_unsafe_withdraw(sender, amount) == vault.fail(
            VaultError::InsufficientBalance,
        ),
        apply(vault.ledger, LedgerOp::Debit { account: sender, amount }) == vault.ledger,
{
}

/// Protected-withdrawal atomicity: once a protected withdrawal has started,
/// every guarded call that its transfer makes, by any account and for any
/// amount, fails with `ReentrantCall` and changes nothing. When the
/// withdrawal finishes, exactly its own debit has been applied and the guard
/// is free again.
pub proof fn theorem_protected_withdraw_atomic(
    vault: VaultModel,
    sender: Address,
    amount: nat,
    inner_sender: Address,
    inner_amount: nat,
)
    requires
        vault.withdraw(sender, amount).error is None,
    ensures
        ({
            let during = vault.withdraw(sender, amount).next;
            &&& during.entered
            &&& during.withdraw(inner_sender, inner_amount) == during.fail(
                VaultError::ReentrantCall,
            )
            &&& during.deposit(inner_sender, inner_amount) == during.fail(
                VaultError::ReentrantCall,
            )
            &&& during.finish_withdraw() == (VaultModel {
                ledger: vault.ledger.debit(sender, amount),
                entered: false,
            })
        }),
{
}

/// Effects before interactions: a protected withdrawal has recorded its
/// debit before its transfer is made. So even a call that does not ask the
/// guard, made by that transfer, finds only what is left: an unprotected
/// withdrawal of more than the remaining balance fails on the balance check.
pub proof fn theorem_debit_precedes_transfer(
    vault: VaultModel,
    sender: Address,
    amount: nat,
    inner_amount: nat,
)
    requires
        vault.withdraw(sender, amount).error is None,
    ensures
        ({
            let during = vault.withdraw(sender, amount).next;
            let left = vault.ledger.balance_of(sender) - amount;
            &&& during.ledger.balance_of(sender) == left
            &&& during.unsafe_withdraw(sender, inner_amount).error is None <==> inner_amount
                <= left
            &&& inner_amount > left ==> during.unsafe_withdraw(sender, inner_amount)
                == during.fail(VaultError::InsufficientBalance)
        }),
{
}

/// The unprotected withdrawal can be re-entered. Let an account hold
/// `balance` and start an unprotected withdrawal of `amount`, and let the
/// transfer start and finish a second one of the same amount before the
/// first is finished. Then:
/// - both balance checks pass, so two transfers of `amount` are made,
///   although nothing was recorded between them;
/// - the second withdrawal succeeds and leaves `balance - amount`;
/// - the first one then succeeds only where `balance` covers both, and
///   otherwise fails with `InsufficientBalance` and leaves
///   `balance - amount` on record: one debit for two transfers;
/// - both succeed with a single `amount` gone from the record only where
///   `amount` is zero.
pub proof fn theorem_unsafe_withdraw_reentry(vault: VaultModel, sender: Address, amount: nat)
    requires
        amount <= vault.ledger.balance_of(sender),
    ensures
        ({
            let balance = vault.ledger.balance_of(sender);
            let first_check = vault.unsafe_withdraw(sender, amount);
            let second_check = first_check.next.unsafe_withdraw(sender, amount);
            let second_done = second_check.next.finish_unsafe_withdraw(sender, amount);
            let first_done = second_done.next.finish_unsafe_withdraw(sender, amount);
            let recorded = first_done.next.ledger.balance_of(sender);
            &&& first_check == VaultModel::succeed(vault)
            &&& second_check == VaultModel::succeed(vault)
            &&& second_done.error is None
            &&& second_done.next.ledger.balance_of(sender) == balance - amount
            &&& first_done.error is None <==> 2 * amount <= balance
            &&& first_done.error is None ==> recorded == balance - 2 * amount
            &&& first_done.error is Some ==> first_done == second_done.next.fail(
                VaultError::InsufficientBalance,
            ) && recorded == balance - amount
            &&& first_done.error is None && recorded == balance - amount <==> amount == 0
            &&& first_done.next.entered == vault.entered
        }),
{
}

/// The unprotected withdrawal does not ask the guard: both of its steps do
/// the same to the ledger and fail or succeed alike, whether a guarded
/// operation is in progress or not, and neither changes the guard.
pub proof fn theorem_unsafe_withdraw_ignores_guard(
    vault: VaultModel,
    sender: Address,
    amount: nat,
)
    ensures
        ({
            let free = VaultModel { ledger: vault.ledger, entered: false };
            let held = VaultModel { ledger: vault.ledger, entered: true };
            &&& free.unsafe_withdraw(sender, amount).error == held.unsafe_withdraw(
                sender,
                amount,
            ).error
            &&& free.unsafe_withdraw(sender, amount).next == free
            &&& held.unsafe_withdraw(sender, amount).next == held
            &&& free.finish_unsafe_withdraw(sender, amount).error == held.finish_unsafe_withdraw(
                sender,
                amount,
            ).error
            &&& free.finish_unsafe_withdraw(sender, amount).next.ledger
                == held.finish_unsafe_withdraw(sender, amount).next.ledger
            &&& !free.finish_unsafe_withdraw(sender, amount).next.entered
            &&& held.finish_unsafe_withdraw(sender, amount).next.entered
        }),
{
}

/// The guard does not leak: a deposit, a protected withdrawal that fails at
/// its start, and one that is finished, each made while the guard is free,
/// leave the guard free.
pub proof fn theorem_guard_released(vault: VaultModel, sender: Address, amount: nat)
    requires
        !vault.entered,
    ensures
        !vault.deposit(sender, amount).next.entered,
        vault.withdraw(sender, amount).error is Some ==> !vault.withdraw(
            sender,
            amount,
        ).next.entered,
        !vault.withdraw(sender, amount).next.finish_withdraw().entered,
{
}

} // verus!
