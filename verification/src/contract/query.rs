//! The requests that read the vault, one function each. A balance without a
//! row reads as zero.

use vstd::prelude::*;
use crate::msg::{
    GetListedTokenResponse, GetProfitTokenResponse, GetUserBorrowTokenResponse,
    GetUserTokenBalanceResponse, GetUserUnmintedTokenResponse,
};
use crate::state::{token_names, Vault};
use crate::table::balance_of;

verus! {

/// The unminted credit of `user_address`.
pub fn fetch_user_unminted_token_balance(vault: &Vault, user_address: String) -> (response:
    GetUserUnmintedTokenResponse)
    ensures
        response.vtoken_amount == balance_of(vault@.unminted, user_address@),
{
    match vault.user_unminted_token.may_load(&user_address) {
        Some(data) => GetUserUnmintedTokenResponse { vtoken_amount: data },
        None => GetUserUnmintedTokenResponse { vtoken_amount: 0 },
    }
}

/// The amount of `token_address` held for `user_address`.
pub fn fetch_user_token_balance(vault: &Vault, token_address: String, user_address: String) -> (response:
    GetUserTokenBalanceResponse)
    ensures
        response.usdc_amount == balance_of(vault@.token_balance, (token_address@, user_address@)),
{
    match vault.user_token_balance.may_load(&(token_address, user_address)) {
        Some(data) => GetUserTokenBalanceResponse { usdc_amount: data },
        None => GetUserTokenBalanceResponse { usdc_amount: 0 },
    }
}

/// The credit that `user_address` has borrowed.
pub fn fetch_user_borrow_token_balance(vault: &Vault, user_address: String) -> (response:
    GetUserBorrowTokenResponse)
    ensures
        response.borrrow_vtoken_amount == balance_of(vault@.borrow, user_address@),
{
    match vault.user_borrow_balance.may_load(&user_address) {
        Some(data) => GetUserBorrowTokenResponse { borrrow_vtoken_amount: data },
        None => GetUserBorrowTokenResponse { borrrow_vtoken_amount: 0 },
    }
}

/// The profit credited to `user_address`.
pub fn fetch_user_profit_token_balance(vault: &Vault, user_address: String) -> (response:
    GetProfitTokenResponse)
    ensures
        response.profit_vtoken_amount == balance_of(vault@.profit, user_address@),
{
    match vault.user_profit_token.may_load(&user_address) {
        Some(data) => GetProfitTokenResponse { profit_vtoken_amount: data },
        None => GetProfitTokenResponse { profit_vtoken_amount: 0 },
    }
}

/// The accepted tokens, in the order in which they were listed.
pub fn fetch_listed_tokens(vault: &Vault) -> (response: GetListedTokenResponse)
    ensures
        token_names(response.listed_token@) == vault@.listed_token,
{
    let mut listed_token: Vec<String> = Vec::new();
    let mut i: usize = 0;
    while i < vault.listed_token.len()
        invariant
            i <= vault.listed_token@.len(),
            listed_token@.len() == i,
            forall|j: int| 0 <= j < i ==> listed_token@[j]@ == vault.listed_token@[j]@,
        decreases vault.listed_token@.len() - i,
    {
        listed_token.push(vault.listed_token[i].clone());
        i += 1;
    }
    assert(token_names(listed_token@) =~= vault@.listed_token);
    GetListedTokenResponse { listed_token }
}

} // verus!
