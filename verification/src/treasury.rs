//! The treasury's fee policy and the split of a value into fee and remainder.

use crate::amount::{amount_max, Amount};
use alloy_primitives::Address;
use vstd::prelude::*;

verus! {

/// `alloy_primitives::Address`: twenty bytes that name the fee's recipient. The
/// policy stores and returns it, and never looks inside.
#[verifier::external_type_specification]
#[verifier::external_body]
pub struct ExAddress(Address);

/// Why a fee policy was refused.
#[derive(Debug, Clone, Copy, PartialEq, Eq, Structural)]
pub enum TreasuryError {
    /// The percentage is zero, or a hundred or more. Carries the refused value.
    InvalidFeePercentage(u8),
    /// Reserved for a refused recipient; `TreasuryConfig::new` never returns it.
    InvalidTreasuryAddress,
}

/// A fee percentage is valid when it lies strictly between 0 and 100.
pub open spec fn valid_fee_percentage(percentage: nat) -> bool {
    0 < percentage < 100
}

/// The fee taken from `total`: `total * percentage / 100` rounded down, or zero
/// when `total * percentage` does not fit in 256 bits.
pub open spec fn fee_amount(total: nat, percentage: nat) -> nat {
    if total * percentage <= amount_max() {
        total * percentage / 100
    } else {
        0
    }
}

/// What is left of `total` once the fee is taken, or zero should the fee exceed
/// `total`.
pub open spec fn remaining_amount(total: nat, percentage: nat) -> nat {
    let fee = fee_amount(total, percentage);
    if fee <= total {
        (total - fee) as nat
    } else {
        0
    }
}

/// What a [`TreasuryConfig`] stands for: who receives the fee, and how many
/// hundredths of a value go to them.
pub ghost struct FeePolicy {
    pub address: Address,
    pub fee_percentage: nat,
}

/// A validated fee policy. Its percentage is always valid: the fields are
/// private and the only constructor checks it.
#[derive(Debug)]
pub struct TreasuryConfig {
    address: Address,
    fee_percentage: u8,
}

impl View for TreasuryConfig {
    type V = FeePolicy;

    closed spec fn view(&self) -> FeePolicy {
        FeePolicy { address: self.address, fee_percentage: self.fee_percentage as nat }
    }
}

impl Clone for TreasuryConfig {
    /// A copy that stands for the same policy.
    fn clone(&self) -> (copy: Self)
        ensures
            copy@ == self@,
    {
        proof {
            use_type_invariant(self);
        }
        Self { address: self.address, fee_percentage: self.fee_percentage }
    }
}

impl TreasuryConfig {
    /// The invariant of the type: the percentage is valid.
    #[verifier::type_invariant]
    pub open spec fn wf(&self) -> bool {
        valid_fee_percentage(self@.fee_percentage)
    }

    /// Builds the policy when `fee_percentage` is valid, and otherwise refuses it
    /// with the value that was given. The recipient is not examined.
    pub fn new(address: Address, fee_percentage: u8) -> (result: Result<Self, TreasuryError>)
        ensures
            valid_fee_percentage(fee_percentage as nat) ==> result is Ok && result->Ok_0@ == (FeePolicy {
                address,
                fee_percentage: fee_percentage as nat,
            }),
            !valid_fee_percentage(fee_percentage as nat) ==> result == Err::<Self, TreasuryError>(
                TreasuryError::InvalidFeePercentage(fee_percentage),
            ),
    {
        if fee_percentage == 0 || fee_percentage >= 100 {
            return Err(TreasuryError::InvalidFeePercentage(fee_percentage));
        }
        Ok(Self { address, fee_percentage })
    }

    /// The recipient of the fee, as it was given to `new`.
    pub fn address(&self) -> (address: Address)
        ensures
            address == self@.address,
    {
        self.address
    }

    /// The percentage of a value that goes to the recipient: always valid.
    pub fn fee_percentage(&self) -> (percentage: u8)
        ensures
            percentage == self@.fee_percentage,
            valid_fee_percentage(percentage as nat),
    {
        proof {
            use_type_invariant(self);
        }
        self.fee_percentage
    }

    /// Splits `total_value` into the fee and the remainder. The two always add up
    /// to `total_value`; the fee is zero when `total_value` times the percentage
    /// does not fit in 256 bits.
    pub fn calculate_fee_split(&self, total_value: Amount) -> (split: (Amount, Amount))
        ensures
            split.0@ == fee_amount(total_value@, self@.fee_percentage),
            split.1@ == remaining_amount(total_value@, self@.fee_percentage),
            split.0@ + split.1@ == total_value@,
    {
        proof {
            use_type_invariant(self);
            lemma_fee_at_most_total(total_value@, self@.fee_percentage);
        }
        let fee_amount = total_value.checked_mul(Amount::from(self.fee_percentage as u128))
            .unwrap_or_default().checked_div(Amount::from(100u128)).unwrap_or_default();

        let remaining = total_value.checked_sub(fee_amount).unwrap_or_default();

        (fee_amount, remaining)
    }
}

/// With a percentage below 100 the fee never exceeds the value it is taken from.
pub proof fn lemma_fee_at_most_total(total: nat, percentage: nat)
    requires
        percentage < 100,
    ensures
        fee_amount(total, percentage) <= total,
{
    assert(total * percentage <= total * 100) by (nonlinear_arith)
        requires
            percentage < 100,
    ;
}

/// Nothing is created or lost: under a valid policy the fee and the remainder add
/// up to the value that was split, whether or not the product overflowed.
pub proof fn lemma_split_conserves_value(config: TreasuryConfig, total_value: Amount)
    requires
        config.wf(),
    ensures
        fee_amount(total_value@, config@.fee_percentage) + remaining_amount(
            total_value@,
            config@.fee_percentage,
        ) == total_value@,
{
    lemma_fee_at_most_total(total_value@, config@.fee_percentage);
}

/// Where the product fits in 256 bits, the fee is the percentage share of the
/// value rounded down: the one number `fee` with
/// `100 * fee <= total * percentage < 100 * (fee + 1)`.
pub proof fn lemma_fee_is_share_rounded_down(config: TreasuryConfig, total_value: Amount)
    requires
        config.wf(),
        total_value@ * config@.fee_percentage <= amount_max(),
    ensures
        fee_amount(total_value@, config@.fee_percentage) == total_value@ * config@.fee_percentage
            / 100,
        100 * fee_amount(total_value@, config@.fee_percentage) <= total_value@
            * config@.fee_percentage,
        total_value@ * config@.fee_percentage < 100 * (fee_amount(
            total_value@,
            config@.fee_percentage,
        ) + 1),
{
}

/// Where the product does not fit in 256 bits, no fee is taken and the whole
/// value remains.
pub proof fn lemma_overflow_takes_no_fee(config: TreasuryConfig, total_value: Amount)
    requires
        total_value@ * config@.fee_percentage > amount_max(),
    ensures
        fee_amount(total_value@, config@.fee_percentage) == 0,
        remaining_amount(total_value@, config@.fee_percentage) == total_value@,
{
}

/// Splitting nothing yields nothing, whatever the percentage.
pub proof fn lemma_zero_splits_to_zero(config: TreasuryConfig)
    ensures
        fee_amount(0, config@.fee_percentage) == 0,
        remaining_amount(0, config@.fee_percentage) == 0,
{
    assert(0 * config@.fee_percentage == 0) by (nonlinear_arith);
}

/// The split is a function of the policy and the value: any two results that
/// `calculate_fee_split` may return for the same inputs are the same pair of
/// amounts, limb for limb.
pub proof fn lemma_split_is_deterministic(
    config: TreasuryConfig,
    total_value: Amount,
    first: (Amount, Amount),
    second: (Amount, Amount),
)
    requires
        first.0@ == fee_amount(total_value@, config@.fee_percentage),
        first.1@ == remaining_amount(total_value@, config@.fee_percentage),
        second.0@ == fee_amount(total_value@, config@.fee_percentage),
        second.1@ == remaining_amount(total_value@, config@.fee_percentage),
    ensures
        first == second,
{
    first.0.lemma_view_injective(second.0);
    first.1.lemma_view_injective(second.1);
}

} // verus!
