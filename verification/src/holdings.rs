//! Balance sheets as mathematical maps, and the sum of what they record.

use vstd::prelude::*;
use crate::address::Address;

verus! {

/// The balance sheet in which every account holds nothing.
pub open spec fn no_balances() -> Map<Address, nat> {
    Map::total(|account: Address| 0nat)
}

/// The accounts with a balance above zero.
pub open spec fn holders(balances: Map<Address, nat>) -> Set<Address> {
    Set::new(|account: Address| balances[account] > 0)
}

/// The sum of the balances of the given accounts.
pub open spec fn sum_over(balances: Map<Address, nat>, accounts: Set<Address>) -> nat
    decreases accounts.len(),
    when accounts.finite()
{
    if accounts.is_empty() {
        0
    } else {
        let account = accounts.choose();
        balances[account] + sum_over(balances, accounts.remove(account))
    }
}

/// The sum of all balances: that of the accounts that hold anything.
pub open spec fn total_held(balances: Map<Address, nat>) -> nat {
    sum_over(balances, holders(balances))
}

/// Any one account of a finite set can be taken out of the sum first.
pub proof fn lemma_sum_over_remove(
    balances: Map<Address, nat>,
    accounts: Set<Address>,
    account: Address,
)
    requires
        accounts.finite(),
        accounts.contains(account),
    ensures
        sum_over(balances, accounts) == balances[account] + sum_over(
            balances,
            accounts.remove(account),
        ),
    decreases accounts.len(),
{
    let first = accounts.choose();
    if first != account {
        lemma_sum_over_remove(balances, accounts.remove(first), account);
        lemma_sum_over_remove(balances, accounts.remove(account), first);
        assert(accounts.remove(first).remove(account) =~= accounts.remove(account).remove(first));
    }
}

/// The sum over a set depends only on the balances of its accounts.
pub proof fn lemma_sum_over_agree(
    left: Map<Address, nat>,
    right: Map<Address, nat>,
    accounts: Set<Address>,
)
    requires
        accounts.finite(),
        forall|account: Address| accounts.contains(account) ==> left[account] == right[account],
    ensures
        sum_over(left, accounts) == sum_over(right, accounts),
    decreases accounts.len(),
{
    if !accounts.is_empty() {
        lemma_sum_over_agree(left, right, accounts.remove(accounts.choose()));
    }
}

/// An account that holds nothing adds nothing to a sum.
pub proof fn lemma_sum_over_insert_zero(
    balances: Map<Address, nat>,
    accounts: Set<Address>,
    account: Address,
)
    requires
        accounts.finite(),
        balances[account] == 0,
    ensures
        sum_over(balances, accounts.insert(account)) == sum_over(balances, accounts),
{
    if accounts.contains(account) {
        assert(accounts.insert(account) =~= accounts);
    } else {
        lemma_sum_over_remove(balances, accounts.insert(account), account);
        assert(accounts.insert(account).remove(account) =~= accounts);
    }
}

/// Setting one balance changes the sum of all balances by the difference
/// between the new balance and the old one.
pub proof fn lemma_total_held_insert(balances: Map<Address, nat>, account: Address, balance: nat)
    requires
        holders(balances).finite(),
    ensures
        holders(balances.insert(account, balance)).finite(),
        total_held(balances.insert(account, balance)) + balances[account] == total_held(balances)
            + balance,
{
    let after = balances.insert(account, balance);
    let before_set = holders(balances).insert(account);
    let after_set = holders(after).insert(account);
    let others = before_set.remove(account);
    assert(after_set =~= before_set);
    assert(holders(after) =~= if balance > 0 {
        before_set
    } else {
        others
    });
    if balances[account] == 0 {
        lemma_sum_over_insert_zero(balances, holders(balances), account);
    } else {
        assert(before_set =~= holders(balances));
    }
    if balance == 0 {
        lemma_sum_over_insert_zero(after, holders(after), account);
    } else {
        assert(after_set =~= holders(after));
    }
    lemma_sum_over_remove(balances, before_set, account);
    lemma_sum_over_remove(after, after_set, account);
    lemma_sum_over_agree(balances, after, others);
}

/// No account holds more than the sum of all balances.
pub proof fn lemma_balance_within_total(balances: Map<Address, nat>, account: Address)
    requires
        holders(balances).finite(),
    ensures
        balances[account] <= total_held(balances),
{
    if balances[account] > 0 {
        lemma_sum_over_remove(balances, holders(balances), account);
    }
}

/// Where nobody holds anything the sum of all balances is zero.
pub proof fn lemma_no_balances()
    ensures
        holders(no_balances()) =~= Set::<Address>::empty(),
        holders(no_balances()).finite(),
        total_held(no_balances()) == 0,
{
    assert(holders(no_balances()) =~= Set::<Address>::empty());
}

} // verus!
