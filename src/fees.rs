use vstd::prelude::*;

use crate::error::VaultError;

verus! {

/// Fee charged on the primary swap path, in basis points (0.25%).
pub const FEE_BPS: u64 = 25;

/// Denominator of a basis-point rate.
pub const BPS_DENOMINATOR: u64 = 10000;

/// Share of swap proceeds that goes to the admin, in percent.
pub const ADMIN_SHARE_PERCENT: u64 = 60;

/// Denominator of a percentage.
pub const PERCENT_DENOMINATOR: u64 = 100;

/// Denominator of a rate in tenths.
pub const TENTHS_DENOMINATOR: u64 = 10;

/// The outcome of splitting `amount` at `rate / denominator`, with checked
/// arithmetic: the product must fit in a `u64` (else `SwapFailed`) and the
/// share may not exceed the amount (else `InsufficientFunds`).
pub open spec fn split_spec(amount: u64, rate: u64, denominator: u64) -> Result<(u64, u64), VaultError> {
    let product: int = amount * rate;
    if product > u64::MAX {
        Err(VaultError::SwapFailed)
    } else if product / (denominator as int) > amount {
        Err(VaultError::InsufficientFunds)
    } else {
        let share = (product / (denominator as int)) as u64;
        Ok((share, (amount - share) as u64))
    }
}

/// Result of `split_fee(amount_in, bps)`: `(fee, remainder)`.
pub open spec fn split_fee_spec(amount_in: u64, bps: u64) -> Result<(u64, u64), VaultError> {
    split_spec(amount_in, bps, BPS_DENOMINATOR)
}

/// Result of `split_proceeds(total, admin_percent)`: `(admin_share, vault_share)`.
/// A rate that is a whole number of tenths is applied in tenths, so that the
/// checked product is `total * (admin_percent / 10)`.
pub open spec fn split_proceeds_spec(total: u64, admin_percent: u64) -> Result<(u64, u64), VaultError> {
    if admin_percent % 10 == 0 {
        split_spec(total, (admin_percent / 10) as u64, TENTHS_DENOMINATOR)
    } else {
        split_spec(total, admin_percent, PERCENT_DENOMINATOR)
    }
}

fn checked_split(amount: u64, rate: u64, denominator: u64) -> (r: Result<(u64, u64), VaultError>)
    requires
        denominator > 0,
    ensures
        r == split_spec(amount, rate, denominator),
{
    let share = match amount.checked_mul(rate) {
        Some(product) => product / denominator,
        None => return Err(VaultError::SwapFailed),
    };
    match amount.checked_sub(share) {
        Some(rest) => Ok((share, rest)),
        None => Err(VaultError::InsufficientFunds),
    }
}

/// Splits `amount_in` into a fee of `floor(amount_in * bps / 10000)` and the
/// remainder that is swapped.
pub fn split_fee(amount_in: u64, bps: u64) -> (r: Result<(u64, u64), VaultError>)
    ensures
        r == split_fee_spec(amount_in, bps),
{
    checked_split(amount_in, bps, BPS_DENOMINATOR)
}

/// Splits swap proceeds into the admin's share of
/// `floor(total * admin_percent / 100)` and the remainder kept by the vault.
/// A rate that is a whole number of tenths is applied in tenths, which keeps
/// the checked product small: at 60% it fails only when `total * 6`
/// overflows.
pub fn split_proceeds(total: u64, admin_percent: u64) -> (r: Result<(u64, u64), VaultError>)
    ensures
        r == split_proceeds_spec(total, admin_percent),
        r matches Ok((admin_share, vault_share)) ==> {
            &&& admin_share == total * admin_percent / 100
            &&& admin_share + vault_share == total
        },
{
    if admin_percent % 10 == 0 {
        let r = checked_split(total, admin_percent / 10, TENTHS_DENOMINATOR);
        proof {
            lemma_tenths_floor(total as int, (admin_percent / 10) as int);
        }
        r
    } else {
        checked_split(total, admin_percent, PERCENT_DENOMINATOR)
    }
}

proof fn lemma_tenths_floor(total: int, tenths: int)
    requires
        total >= 0,
        tenths >= 0,
    ensures
        total * tenths / 10 == total * (tenths * 10) / 100,
{
    assert(total * (tenths * 10) == (total * tenths) * 10) by (nonlinear_arith);
    vstd::arithmetic::div_mod::lemma_div_denominator(total * tenths * 10, 10, 10);
    vstd::arithmetic::div_mod::lemma_div_by_multiple(total * tenths, 10);
}

/// At the fixed fee rate, the fee never exceeds the amount, fee and remainder
/// add up to the amount, and the fee is `floor(amount_in * 25 / 10000)`,
/// whenever `amount_in * 25` fits in a `u64`.
pub proof fn lemma_split_fee_conserves(amount_in: u64)
    requires
        amount_in * FEE_BPS <= u64::MAX,
    ensures
        split_fee_spec(amount_in, FEE_BPS) is Ok,
        ({
            let (fee, remainder) = split_fee_spec(amount_in, FEE_BPS)->Ok_0;
            &&& fee <= amount_in
            &&& fee + remainder == amount_in
            &&& fee == amount_in * 25 / 10000
        }),
{
}

/// At the fixed 60/40 split, the two shares add up to the total and the
/// admin's share is `floor(total * 6 / 10)`, whenever `total * 6` fits in a
/// `u64`.
pub proof fn lemma_split_proceeds_conserves(total: u64)
    requires
        total * 6 <= u64::MAX,
    ensures
        split_proceeds_spec(total, ADMIN_SHARE_PERCENT) is Ok,
        ({
            let (admin_share, vault_share) = split_proceeds_spec(total, ADMIN_SHARE_PERCENT)->Ok_0;
            &&& admin_share <= total
            &&& admin_share + vault_share == total
            &&& admin_share == total * 6 / 10
        }),
{
}

} // verus!
