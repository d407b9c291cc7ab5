//! A 256-bit unsigned amount, held as four 64-bit limbs.

use alloy_primitives::U256;
use vstd::prelude::*;
use vstd::std_specs::convert::FromSpecImpl;

verus! {

/// The weight of one limb: 2^64.
pub open spec fn limb_base() -> nat {
    0x1_0000_0000_0000_0000nat
}

/// The largest value an [`Amount`] can hold: 2^256 - 1.
pub open spec fn amount_max() -> nat {
    0xffff_ffff_ffff_ffff_ffff_ffff_ffff_ffff_ffff_ffff_ffff_ffff_ffff_ffff_ffff_ffffnat
}

/// An unsigned 256-bit integer. `limbs[0]` is the least significant limb, as in
/// ruint's `Uint::from_limbs` and `Uint::into_limbs`, so that a value moves to and
/// from alloy's `U256` without change.
#[derive(Clone, Copy, Debug, PartialEq, Eq)]
pub struct Amount {
    pub limbs: [u64; 4],
}

impl View for Amount {
    type V = nat;

    /// The number that the four limbs spell in base 2^64.
    open spec fn view(&self) -> nat {
        self.limbs[0] as nat + limb_base() * (self.limbs[1] as nat + limb_base() * (self.limbs[2] as nat
            + limb_base() * (self.limbs[3] as nat)))
    }
}

impl Default for Amount {
    /// The amount zero.
    fn default() -> (amount: Amount)
        ensures
            amount@ == 0,
    {
        Amount { limbs: [0, 0, 0, 0] }
    }
}

impl From<u128> for Amount {
    /// The amount that equals `value`.
    fn from(value: u128) -> (amount: Amount)
        ensures
            amount@ == value,
    {
        let low: u64 = (value & 0xffff_ffff_ffff_ffff) as u64;
        let high: u64 = (value >> 64) as u64;
        proof {
            assert(low as u128 + (high as u128) * 0x1_0000_0000_0000_0000 == value) by (bit_vector)
                requires
                    low == (value & 0xffff_ffff_ffff_ffff) as u64,
                    high == (value >> 64) as u64,
            ;
        }
        Amount { limbs: [low, high, 0, 0] }
    }
}

impl FromSpecImpl<u128> for Amount {
    open spec fn obeys_from_spec() -> bool {
        true
    }

    open spec fn from_spec(value: u128) -> Amount {
        Amount { limbs: [(value & 0xffff_ffff_ffff_ffff) as u64, (value >> 64) as u64, 0, 0] }
    }
}

impl Amount {
    /// Two amounts with the same value have the same limbs: the view loses nothing.
    pub proof fn lemma_view_injective(self, other: Amount)
        requires
            self@ == other@,
        ensures
            self == other,
    {
        assert(self.limbs =~= other.limbs);
    }

    /// Trusted: `Uint::<256, 4>::checked_mul` of ruint, reached as `U256::checked_mul`.
    /// The limbs go in and come out through `from_limbs` and `into_limbs`, least
    /// significant limb first. The product is returned when it fits in 256 bits,
    /// and `None` when it does not.
    #[verifier::external_body]
    pub(crate) fn checked_mul(self, rhs: Amount) -> (product: Option<Amount>)
        ensures
            product is Some <==> self@ * rhs@ <= amount_max(),
            product is Some ==> product->0@ == self@ * rhs@,
    {
        match U256::from_limbs(self.limbs).checked_mul(U256::from_limbs(rhs.limbs)) {
            Some(p) => Some(Amount { limbs: p.into_limbs() }),
            None => None,
        }
    }

    /// Trusted: `Uint::<256, 4>::checked_div` of ruint, reached as `U256::checked_div`.
    /// The quotient, rounded down, is returned when the divisor is not zero, and
    /// `None` when it is.
    #[verifier::external_body]
    pub(crate) fn checked_div(self, rhs: Amount) -> (quotient: Option<Amount>)
        ensures
            quotient is Some <==> rhs@ != 0,
            quotient is Some ==> quotient->0@ == self@ / rhs@,
    {
        match U256::from_limbs(self.limbs).checked_div(U256::from_limbs(rhs.limbs)) {
            Some(q) => Some(Amount { limbs: q.into_limbs() }),
            None => None,
        }
    }

    /// Trusted: `Uint::<256, 4>::checked_sub` of ruint, reached as `U256::checked_sub`.
    /// The difference is returned when `rhs` is not larger than `self`, and `None`
    /// when it is.
    #[verifier::external_body]
    pub(crate) fn checked_sub(self, rhs: Amount) -> (difference: Option<Amount>)
        ensures
            difference is Some <==> rhs@ <= self@,
            difference is Some ==> difference->0@ == self@ - rhs@,
    {
        match U256::from_limbs(self.limbs).checked_sub(U256::from_limbs(rhs.limbs)) {
            Some(d) => Some(Amount { limbs: d.into_limbs() }),
            None => None,
        }
    }
}

} // verus!
