//! Integer fee and discount arithmetic. Rates are parts per thousand.
use vstd::prelude::*;
use crate::state::ContractError;

verus! {

/// The whole, in parts per thousand.
pub const THOUSAND: u64 = 1000;

/// Length of a lock day, in seconds.
pub const SECONDS_PER_DAY: u64 = 86400;

/// The part of a deposit that is bonded once fees at `fee_rate` are kept:
/// `deposit * (1000 - fee_rate) / 1000`, rounded down.
pub open spec fn net_result(deposit: u128, fee_rate: int) -> Result<u128, ContractError> {
    if deposit * (1000 - fee_rate) > u128::MAX {
        Err(ContractError::Overflow)
    } else {
        Ok((deposit * (1000 - fee_rate) / 1000) as u128)
    }
}

/// A quoted amount grossed up by the discount: `quoted * 1000 / (1000 - discount)`.
pub open spec fn receivable_result(quoted: u128, discount: u64) -> Result<u128, ContractError> {
    if quoted * 1000 > u128::MAX {
        Err(ContractError::Overflow)
    } else {
        Ok((quoted * 1000 / (1000 - discount)) as u128)
    }
}

/// The fee owed on a value of `quote` at `fee_rate`: `quote * fee_rate / 1000`.
pub open spec fn redemption_fee_result(quote: u128, fee_rate: int) -> Result<u128, ContractError> {
    if quote * fee_rate > u128::MAX {
        Err(ContractError::Overflow)
    } else {
        Ok((quote * fee_rate / 1000) as u128)
    }
}

/// The time at which an entitlement made at `now` matures.
pub open spec fn maturity_result(now: u64, lock_days: u64) -> Result<u64, ContractError> {
    if now + lock_days * 86400 > u64::MAX {
        Err(ContractError::Overflow)
    } else {
        Ok((now + lock_days * 86400) as u64)
    }
}

/// A native deposit divided into the fee kept and the net amount bonded.
#[derive(Debug, Clone, Copy, PartialEq, Eq)]
pub struct DepositSplit {
    pub fee: u128,
    pub net: u128,
}

proof fn lemma_scaled_down(x: int, k: int)
    requires
        0 <= x,
        0 <= k <= 1000,
    ensures
        0 <= x * k / 1000 <= x,
{
    assert(0 <= x * k) by (nonlinear_arith)
        requires
            0 <= x,
            0 <= k,
    ;
    assert(x * k <= x * 1000) by (nonlinear_arith)
        requires
            0 <= x,
            k <= 1000,
    ;
    assert(x * k / 1000 <= x * 1000 / 1000) by (nonlinear_arith)
        requires
            x * k <= x * 1000,
            0 <= x * k,
    ;
    assert(x * 1000 / 1000 == x) by (nonlinear_arith);
}

/// Splits a deposit into fee and net amount; the two add up to the deposit.
pub fn split_deposit(deposit: u128, tx_fee: u64, platform_fee: u64) -> (r: Result<DepositSplit, ContractError>)
    requires
        tx_fee + platform_fee < 1000,
    ensures
        match r {
            Ok(s) => {
                &&& net_result(deposit, tx_fee + platform_fee) == Ok::<u128, ContractError>(s.net)
                &&& s.fee + s.net == deposit
            },
            Err(e) => net_result(deposit, tx_fee + platform_fee) == Err::<u128, ContractError>(e),
        },
{
    let share = (THOUSAND - tx_fee - platform_fee) as u128;
    match deposit.checked_mul(share) {
        None => Err(ContractError::Overflow),
        Some(product) => {
            let net = product / (THOUSAND as u128);
            proof {
                lemma_scaled_down(deposit as int, share as int);
            }
            Ok(DepositSplit { fee: deposit - net, net })
        },
    }
}

/// Grosses a quoted amount up by the discount.
pub fn receivable_amount(quoted: u128, discount: u64) -> (r: Result<u128, ContractError>)
    requires
        discount < 1000,
    ensures
        r == receivable_result(quoted, discount),
{
    match quoted.checked_mul(THOUSAND as u128) {
        None => Err(ContractError::Overflow),
        Some(product) => Ok(product / ((THOUSAND - discount) as u128)),
    }
}

/// The fee owed on a value of `quote` at the combined rate of the two fees.
pub fn redemption_fee(quote: u128, tx_fee: u64, platform_fee: u64) -> (r: Result<u128, ContractError>)
    requires
        tx_fee + platform_fee < 1000,
    ensures
        r == redemption_fee_result(quote, tx_fee + platform_fee),
{
    match quote.checked_mul((tx_fee + platform_fee) as u128) {
        None => Err(ContractError::Overflow),
        Some(product) => Ok(product / (THOUSAND as u128)),
    }
}

/// The block time at which an entitlement made at `now` matures.
pub fn maturity(now: u64, lock_days: u64) -> (r: Result<u64, ContractError>)
    ensures
        r == maturity_result(now, lock_days),
{
    match lock_days.checked_mul(SECONDS_PER_DAY) {
        None => Err(ContractError::Overflow),
        Some(lock) => match now.checked_add(lock) {
            None => Err(ContractError::Overflow),
            Some(t) => Ok(t),
        },
    }
}

} // verus!
