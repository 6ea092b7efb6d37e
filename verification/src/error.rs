//! The failures that the vault's operations report.

use vstd::prelude::*;

verus! {

/// `cosmwasm_std::StdError`, carried from the call that reports it to the
/// caller of the vault. Nothing is read from it.
#[verifier::external_type_specification]
#[verifier::external_body]
pub struct ExStdError(cosmwasm_std::StdError);

/// Why an operation was refused.
///
/// Several variants name what is arithmetically the same fault; each
/// operation reports the variant that its rule names, and they are kept apart
/// on purpose.
#[derive(Debug, PartialEq)]
pub enum ContractError {
    /// A fault reported by `cosmwasm_std` while a message was encoded.
    Std(cosmwasm_std::StdError),
    /// The caller is not the owner.
    Unauthorized {},
    /// The depositing token is not on the list of accepted tokens.
    UnauthorizedToken {},
    /// A balance would leave the 128-bit range.
    OverflowBalance {},
    /// A balance would leave the 128-bit range.
    Overflow {},
    /// A withdrawal was asked for while the caller still owes a borrow.
    BorrowAmountIsNotZero {},
    /// The balance drawn on is smaller than the amount asked for.
    InsufficientBalance {},
    /// The unminted credit is smaller than the amount to borrow.
    InsufficientUnmintedToken {},
    /// The repayment is larger than the amount owed.
    RepayOverflow {},
    /// A burn was asked for while the caller still owes a borrow.
    PayBorrowAmount {},
}

} // verus!
