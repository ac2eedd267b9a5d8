//! Amounts of value: unsigned 256-bit integers, held as four 64-bit limbs.
//! The arithmetic on them is done by `alloy_primitives::U256`.

use vstd::prelude::*;
use stylus_sdk::alloy_primitives::U256;

verus! {

/// The largest amount that can be represented, 2^256 - 1.
pub open spec fn max_amount() -> nat {
    0xffff_ffff_ffff_ffff_ffff_ffff_ffff_ffff_ffff_ffff_ffff_ffff_ffff_ffff_ffff_ffffnat
}

/// The number that four limbs stand for, the least significant limb first.
pub open spec fn limbs_value(limbs: [u64; 4]) -> nat {
    (limbs[0] as nat) + (limbs[1] as nat) * 0x1_0000_0000_0000_0000nat
        + (limbs[2] as nat) * 0x1_0000_0000_0000_0000_0000_0000_0000_0000nat
        + (limbs[3] as nat) * 0x1_0000_0000_0000_0000_0000_0000_0000_0000_0000_0000_0000_0000nat
}

/// An amount of value, between 0 and 2^256 - 1.
#[derive(Clone, Copy, Debug, PartialEq, Eq)]
pub struct Amount {
    /// The limbs of the number, the least significant first.
    pub limbs: [u64; 4],
}

impl View for Amount {
    type V = nat;

    open spec fn view(&self) -> nat {
        limbs_value(self.limbs)
    }
}

impl Amount {
    /// The amount zero.
    pub fn zero() -> (r: Amount)
        ensures
            r@ == 0,
    {
        Amount { limbs: [0, 0, 0, 0] }
    }

    /// The amount with the given value.
    pub fn from_u64(value: u64) -> (r: Amount)
        ensures
            r@ == value,
    {
        Amount { limbs: [value, 0, 0, 0] }
    }

    /// The amount that the given limbs stand for, the least significant first.
    pub fn from_limbs(limbs: [u64; 4]) -> (r: Amount)
        ensures
            r.limbs == limbs,
            r@ == limbs_value(limbs),
    {
        Amount { limbs }
    }

    /// The limbs of the amount, the least significant first.
    pub fn to_limbs(&self) -> (limbs: [u64; 4])
        ensures
            limbs == self.limbs,
            limbs_value(limbs) == self@,
    {
        self.limbs
    }
}

/// `Uint::checked_add` on 256-bit integers: the sum of the two amounts where
/// it is at most 2^256 - 1, and `None` where it is larger.
#[verifier::external_body]
pub(crate) fn checked_add(a: Amount, b: Amount) -> (r: Option<Amount>)
    ensures
        r is Some <==> a@ + b@ <= max_amount(),
        r matches Some(sum) ==> sum@ == a@ + b@,
{
    match U256::from_limbs(a.limbs).checked_add(U256::from_limbs(b.limbs)) {
        Some(sum) => Some(Amount { limbs: sum.into_limbs() }),
        None => None,
    }
}

/// `Uint::wrapping_sub` on 256-bit integers: the difference of the two
/// amounts, taken modulo 2^256 where the second is the larger.
#[verifier::external_body]
pub(crate) fn wrapping_sub(a: Amount, b: Amount) -> (r: Amount)
    ensures
        a@ >= b@ ==> r@ == a@ - b@,
        a@ < b@ ==> r@ == a@ + max_amount() + 1 - b@,
{
    Amount { limbs: U256::from_limbs(a.limbs).wrapping_sub(U256::from_limbs(b.limbs)).into_limbs() }
}

/// `Uint`'s `PartialOrd::ge` (the operator `>=`) on 256-bit integers, which
/// orders them as numbers: whether the first amount is at least the second.
#[verifier::external_body]
pub(crate) fn at_least(a: Amount, b: Amount) -> (r: bool)
    ensures
        r == (a@ >= b@),
{
    U256::from_limbs(a.limbs) >= U256::from_limbs(b.limbs)
}

} // verus!
