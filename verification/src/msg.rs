//! The requests that the vault accepts and the answers to its queries.

use vstd::prelude::*;

verus! {

/// Who sent a request.
#[derive(Debug, Clone, PartialEq, Eq)]
pub struct MessageInfo {
    pub sender: String,
}

/// Creates the vault with one accepted token.
#[derive(Debug, Clone, PartialEq, Eq)]
pub struct InstantiateMsg {
    pub token_contract_address: String,
}

/// Notice from a token contract that `sender` handed `amount` to the vault.
#[derive(Debug, Clone, PartialEq, Eq)]
pub struct Cw20ReceiveMsg {
    pub sender: String,
    pub amount: u128,
    pub msg: Vec<u8>,
}

/// A request that may change the vault.
#[derive(Debug, Clone, PartialEq, Eq)]
pub enum ExecuteMsg {
    Receive(Cw20ReceiveMsg),
    ListTokenOnLeverage { token_address: String },
    WithdrawToken { token_address: String, amount: u128 },
    Borrow { borrow_amount: u128 },
    Repay { repay_amount: u128 },
    Burn { token_address: String, v_token_amount: u128 },
}

/// A request that only reads the vault.
#[derive(Debug, Clone, PartialEq, Eq)]
pub enum QueryMsg {
    UserTokenBalance { token_address: String, user_address: String },
    UserUnmintedTokenBalance { user_address: String },
    UserBorrowTokenBalance { user_address: String },
    UserProfitTokenBalance { user_address: String },
    ListedTokens {},
}

#[derive(Debug, Clone, PartialEq, Eq)]
pub struct GetUserTokenBalanceResponse {
    pub usdc_amount: u128,
}

#[derive(Debug, Clone, PartialEq, Eq)]
pub struct GetUserUnmintedTokenResponse {
    pub vtoken_amount: u128,
}

#[derive(Debug, Clone, PartialEq, Eq)]
pub struct GetUserBorrowTokenResponse {
    pub borrrow_vtoken_amount: u128,
}

#[derive(Debug, Clone, PartialEq, Eq)]
pub struct GetProfitTokenResponse {
    pub profit_vtoken_amount: u128,
}

#[derive(Debug, Clone, PartialEq, Eq)]
pub struct GetListedTokenResponse {
    pub listed_token: Vec<String>,
}

/// The answer to a [`QueryMsg`], one variant per query.
#[derive(Debug, Clone, PartialEq, Eq)]
pub enum QueryResponse {
    UserTokenBalance(GetUserTokenBalanceResponse),
    UserUnmintedTokenBalance(GetUserUnmintedTokenResponse),
    UserBorrowTokenBalance(GetUserBorrowTokenResponse),
    UserProfitTokenBalance(GetProfitTokenResponse),
    ListedTokens(GetListedTokenResponse),
}

} // verus!
