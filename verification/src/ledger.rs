//! The ledger: a balance for every account and the aggregate of all balances,
//! changed only together so that the aggregate always equals the sum.

use vstd::prelude::*;
use crate::address::Address;
use crate::amount::{at_least, checked_add, max_amount, wrapping_sub, Amount};
use crate::error::VaultError;
use crate::holdings::{
    holders, lemma_balance_within_total, lemma_no_balances, lemma_total_held_insert, no_balances,
    total_held,
};

verus! {

/// What a ledger records, as mathematics: the balance of every account
/// (zero for an account that was never credited) and the aggregate total.
pub struct LedgerModel {
    pub balances: Map<Address, nat>,
    pub total: nat,
}

impl LedgerModel {
    /// The ledger in which nothing was ever deposited.
    pub open spec fn empty() -> LedgerModel {
        LedgerModel { balances: no_balances(), total: 0 }
    }

    /// The recorded balance of an account.
    pub open spec fn balance_of(self, account: Address) -> nat {
        self.balances[account]
    }

    /// Conservation: finitely many accounts hold anything, and the aggregate
    /// total is the sum of their balances.
    pub open spec fn conserved(self) -> bool {
        &&& holders(self.balances).finite()
        &&& self.total == total_held(self.balances)
    }

    /// Whether a credit of `amount` keeps the aggregate total representable.
    pub open spec fn can_credit(self, amount: nat) -> bool {
        self.total + amount <= max_amount()
    }

    /// The ledger after `amount` was added to the balance of `account`.
    pub open spec fn credit(self, account: Address, amount: nat) -> LedgerModel {
        LedgerModel {
            balances: self.balances.insert(account, self.balances[account] + amount),
            total: self.total + amount,
        }
    }

    /// Whether the balance of `account` covers a debit of `amount`.
    pub open spec fn can_debit(self, account: Address, amount: nat) -> bool {
        amount <= self.balances[account]
    }

    /// The ledger after `amount` was taken from the balance of `account`.
    pub open spec fn debit(self, account: Address, amount: nat) -> LedgerModel {
        LedgerModel {
            balances: self.balances.insert(account, (self.balances[account] - amount) as nat),
            total: (self.total - amount) as nat,
        }
    }
}

/// A credit keeps conservation.
pub proof fn lemma_credit_conserves(ledger: LedgerModel, account: Address, amount: nat)
    requires
        ledger.conserved(),
    ensures
        ledger.credit(account, amount).conserved(),
{
    lemma_total_held_insert(ledger.balances, account, ledger.balances[account] + amount);
}

/// A debit that the balance covers keeps conservation.
pub proof fn lemma_debit_conserves(ledger: LedgerModel, account: Address, amount: nat)
    requires
        ledger.conserved(),
        ledger.can_debit(account, amount),
    ensures
        ledger.debit(account, amount).conserved(),
        amount <= ledger.total,
{
    lemma_balance_within_total(ledger.balances, account);
    lemma_total_held_insert(
        ledger.balances,
        account,
        (ledger.balances[account] - amount) as nat,
    );
}

/// One line of the ledger: an account and its balance.
struct Entry {
    account: Address,
    balance: Amount,
}

/// Whether some line is about `account`.
spec fn recorded(entries: Seq<Entry>, account: Address) -> bool {
    exists|i: int| 0 <= i < entries.len() && (#[trigger] entries[i]).account == account
}

/// The line about `account`, where there is one.
spec fn line_of(entries: Seq<Entry>, account: Address) -> int {
    choose|i: int| 0 <= i < entries.len() && (#[trigger] entries[i]).account == account
}

/// No two lines are about the same account.
spec fn distinct(entries: Seq<Entry>) -> bool {
    forall|i: int, j: int|
        0 <= i < j < entries.len() ==> (#[trigger] entries[i]).account != (
        #[trigger] entries[j]).account
}

/// The balance sheet that the lines amount to.
spec fn balances_of(entries: Seq<Entry>) -> Map<Address, nat> {
    Map::total(
        |account: Address|
            if recorded(entries, account) {
                entries[line_of(entries, account)].balance@
            } else {
                0nat
            },
    )
}

/// Rewriting the balance on one line sets that account's balance and no other.
proof fn lemma_rewrite_line(entries: Seq<Entry>, i: int, balance: Amount)
    requires
        distinct(entries),
        0 <= i < entries.len(),
    ensures
        distinct(entries.update(i, Entry { account: entries[i].account, balance })),
        balances_of(entries.update(i, Entry { account: entries[i].account, balance }))
            == balances_of(entries).insert(entries[i].account, balance@),
{
    let account = entries[i].account;
    let after = entries.update(i, Entry { account, balance });
    assert forall|other: Address|
        balances_of(after)[other] == balances_of(entries).insert(account, balance@)[other] by {
        if recorded(entries, other) {
            let k = line_of(entries, other);
            assert(after[k].account == other);
            let k2 = line_of(after, other);
            assert(entries[k2].account == other);
        } else if recorded(after, other) {
            let k2 = line_of(after, other);
            assert(entries[k2].account == other);
        }
    }
    assert(balances_of(after) =~= balances_of(entries).insert(account, balance@));
}

/// Adding a line for an account that had none sets that account's balance
/// and no other.
proof fn lemma_add_line(entries: Seq<Entry>, account: Address, balance: Amount)
    requires
        distinct(entries),
        !recorded(entries, account),
    ensures
        distinct(entries.push(Entry { account, balance })),
        balances_of(entries.push(Entry { account, balance })) == balances_of(entries).insert(
            account,
            balance@,
        ),
{
    let after = entries.push(Entry { account, balance });
    assert(after[entries.len() as int].account == account);
    assert forall|other: Address|
        balances_of(after)[other] == balances_of(entries).insert(account, balance@)[other] by {
        if recorded(entries, other) {
            let k = line_of(entries, other);
            assert(after[k].account == other);
            let k2 = line_of(after, other);
            assert(k2 < entries.len() ==> entries[k2].account == other);
        } else if recorded(after, other) {
            let k2 = line_of(after, other);
            assert(k2 < entries.len() ==> entries[k2].account == other);
        }
    }
    assert(balances_of(after) =~= balances_of(entries).insert(account, balance@));
}

/// The balance ledger of a vault.
pub struct Ledger {
    entries: Vec<Entry>,
    total: Amount,
}

impl View for Ledger {
    type V = LedgerModel;

    closed spec fn view(&self) -> LedgerModel {
        LedgerModel { balances: balances_of(self.entries@), total: self.total@ }
    }
}

impl Ledger {
    /// No account is listed twice.
    pub closed spec fn listed_once(&self) -> bool {
        distinct(self.entries@)
    }

    /// The ledger's invariant: its representation is sound and the aggregate
    /// total equals the sum of all balances.
    pub open spec fn well_formed(&self) -> bool {
        &&& self.listed_once()
        &&& self@.conserved()
    }

    /// A ledger with no deposits.
    pub fn new() -> (ledger: Ledger)
        ensures
            ledger.well_formed(),
            ledger@ == LedgerModel::empty(),
    {
        let ledger = Ledger { entries: Vec::new(), total: Amount::zero() };
        proof {
            lemma_no_balances();
            assert(ledger@.balances =~= no_balances());
        }
        ledger
    }

    /// The line about `account`, if there is one.
    fn find(&self, account: &Address) -> (r: Option<usize>)
        ensures
            match r {
                Some(i) => i < self.entries@.len() && self.entries@[i as int].account == *account,
                None => !recorded(self.entries@, *account),
            },
    {
        let mut i: usize = 0;
        while i < self.entries.len()
            invariant
                i <= self.entries@.len(),
                forall|j: int| 0 <= j < i ==> (#[trigger] self.entries@[j]).account != *account,
            decreases self.entries@.len() - i,
        {
            if self.entries[i].account.same(account) {
                return Some(i);
            }
            i += 1;
        }
        None
    }

    /// The recorded balance of `account`: zero if it was never credited.
    pub fn balance_of(&self, account: Address) -> (balance: Amount)
        requires
            self.well_formed(),
        ensures
            balance@ == self@.balance_of(account),
    {
        match self.find(&account) {
            Some(i) => {
                assert(self.entries@[line_of(self.entries@, account)].account == account);
                self.entries[i].balance
            },
            None => Amount::zero(),
        }
    }

    /// The aggregate of all balances.
    pub fn total_deposits(&self) -> (total: Amount)
        ensures
            total@ == self@.total,
    {
        self.total
    }

    /// Writes `balance` as the balance of `account` and `total` as the
    /// aggregate total.
    fn record(&mut self, account: Address, line: Option<usize>, balance: Amount, total: Amount)
        requires
            old(self).listed_once(),
            match line {
                Some(i) => i < old(self).entries@.len() && old(self).entries@[i as int].account
                    == account,
                None => !recorded(old(self).entries@, account),
            },
        ensures
            final(self).listed_once(),
            final(self)@ == (LedgerModel {
                balances: old(self)@.balances.insert(account, balance@),
                total: total@,
            }),
    {
        proof {
            match line {
                Some(i) => lemma_rewrite_line(self.entries@, i as int, balance),
                None => lemma_add_line(self.entries@, account, balance),
            }
        }
        match line {
            Some(i) => self.entries.set(i, Entry { account, balance }),
            None => self.entries.push(Entry { account, balance }),
        }
        self.total = total;
    }

    /// Adds `amount` to the balance of `account` and to the aggregate total.
    /// Fails, changing nothing, where the total would pass 2^256 - 1.
    pub fn credit(&mut self, account: Address, amount: Amount) -> (r: Result<(), VaultError>)
        requires
            old(self).well_formed(),
        ensures
            final(self).well_formed(),
            old(self)@.can_credit(amount@) ==> r is Ok
                && final(self)@ == old(self)@.credit(account, amount@),
            !old(self)@.can_credit(amount@) ==> r == Err::<(), VaultError>(
                VaultError::ArithmeticOverflow,
            ) && *final(self) == *old(self),
    {
        let line = self.find(&account);
        let balance = self.balance_of(account);
        proof {
            lemma_balance_within_total(self@.balances, account);
            lemma_credit_conserves(self@, account, amount@);
        }
        match checked_add(balance, amount) {
            None => Err(VaultError::ArithmeticOverflow),
            Some(new_balance) => match checked_add(self.total, amount) {
                None => Err(VaultError::ArithmeticOverflow),
                Some(new_total) => {
                    self.record(account, line, new_balance, new_total);
                    Ok(())
                },
            },
        }
    }

    /// Takes `amount` from the balance of `account` and from the aggregate
    /// total. Fails, changing nothing, where the balance is smaller.
    pub fn debit(&mut self, account: Address, amount: Amount) -> (r: Result<(), VaultError>)
        requires
            old(self).well_formed(),
        ensures
            final(self).well_formed(),
            old(self)@.can_debit(account, amount@) ==> r is Ok
                && final(self)@ == old(self)@.debit(account, amount@),
            !old(self)@.can_debit(account, amount@) ==> r == Err::<(), VaultError>(
                VaultError::InsufficientBalance,
            ) && *final(self) == *old(self),
    {
        let line = self.find(&account);
        let balance = self.balance_of(account);
        if !at_least(balance, amount) {
            return Err(VaultError::InsufficientBalance);
        }
        proof {
            lemma_debit_conserves(self@, account, amount@);
        }
        let new_balance = wrapping_sub(balance, amount);
        let new_total = wrapping_sub(self.total, amount);
        self.record(account, line, new_balance, new_total);
        Ok(())
    }
}

} // verus!
