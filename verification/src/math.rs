//! Checked 128-bit arithmetic, as `cosmwasm_std::Uint128` performs it.
//!
//! Balances are handled as plain `u128` values; each operation below hands
//! them to `Uint128` and reports a failure through the error value that
//! `Uint128` returns. The contracts in this file are assumed, not proved.

use vstd::prelude::*;

verus! {

/// `cosmwasm_std::OverflowError`, which `Uint128` returns where a result
/// leaves the 128-bit range. Nothing is read from it.
#[verifier::external_type_specification]
#[verifier::external_body]
pub struct ExOverflowError(cosmwasm_std::OverflowError);

/// `cosmwasm_std::DivideByZeroError`, which `Uint128` returns for a division
/// by zero. Nothing is read from it.
#[verifier::external_type_specification]
#[verifier::external_body]
pub struct ExDivideByZeroError(cosmwasm_std::DivideByZeroError);

/// Calls `Uint128::checked_add`. Assumed: the result is the exact sum when
/// the sum fits in 128 bits, and an error exactly when it does not.
#[verifier::external_body]
pub(crate) fn checked_add(a: u128, b: u128) -> (r: Result<u128, cosmwasm_std::OverflowError>)
    ensures
        match r {
            Ok(sum) => sum == a + b,
            Err(_) => a + b > u128::MAX,
        },
{
    match cosmwasm_std::Uint128::new(a).checked_add(cosmwasm_std::Uint128::new(b)) {
        Ok(sum) => Ok(sum.u128()),
        Err(e) => Err(e),
    }
}

/// Calls `Uint128::checked_sub`. Assumed: the result is the exact difference
/// when `b` does not exceed `a`, and an error exactly when it does.
#[verifier::external_body]
pub(crate) fn checked_sub(a: u128, b: u128) -> (r: Result<u128, cosmwasm_std::OverflowError>)
    ensures
        match r {
            Ok(difference) => difference == a - b,
            Err(_) => a < b,
        },
{
    match cosmwasm_std::Uint128::new(a).checked_sub(cosmwasm_std::Uint128::new(b)) {
        Ok(difference) => Ok(difference.u128()),
        Err(e) => Err(e),
    }
}

/// Calls `Uint128::checked_mul`. Assumed: the result is the exact product
/// when the product fits in 128 bits, and an error exactly when it does not.
#[verifier::external_body]
pub(crate) fn checked_mul(a: u128, b: u128) -> (r: Result<u128, cosmwasm_std::OverflowError>)
    ensures
        match r {
            Ok(product) => product == a * b,
            Err(_) => a * b > u128::MAX,
        },
{
    match cosmwasm_std::Uint128::new(a).checked_mul(cosmwasm_std::Uint128::new(b)) {
        Ok(product) => Ok(product.u128()),
        Err(e) => Err(e),
    }
}

/// Calls `Uint128::checked_div`. Assumed: the result is the quotient rounded
/// down when `b` is not zero, and an error exactly when `b` is zero.
#[verifier::external_body]
pub(crate) fn checked_div(a: u128, b: u128) -> (r: Result<u128, cosmwasm_std::DivideByZeroError>)
    ensures
        match r {
            Ok(quotient) => b != 0 && quotient == a / b,
            Err(_) => b == 0,
        },
{
    match cosmwasm_std::Uint128::new(a).checked_div(cosmwasm_std::Uint128::new(b)) {
        Ok(quotient) => Ok(quotient.u128()),
        Err(e) => Err(e),
    }
}

} // verus!
