//! The vault's entry points: creation, and the dispatch of requests to the
//! functions that carry them out.

use vstd::prelude::*;
use crate::error::ContractError;
use crate::model;
use crate::model::Request;
use crate::msg::{ExecuteMsg, InstantiateMsg, MessageInfo, QueryMsg, QueryResponse};
use crate::response::{empty_response, Response, ResponseView};
use crate::state::{token_names, Vault};
use crate::table::balance_of;
use crate::transfer::cw20_transfer_json;

pub mod execute;
pub mod query;

verus! {

/// What creating a vault answers: the method and the owner.
pub open spec fn instantiate_response(owner: Seq<char>) -> ResponseView {
    ResponseView {
        messages: Seq::empty(),
        attributes: seq![("method"@, "instantiate"@), ("owner"@, owner)],
    }
}

/// Creates a vault that the sender owns and that accepts the one token named
/// in `msg`. It holds no balance yet.
pub fn instantiate(info: MessageInfo, msg: InstantiateMsg) -> (created: (Vault, Response))
    ensures
        created.0@ == model::initialize(info.sender@, msg.token_contract_address@),
        created.1@ == instantiate_response(info.sender@),
{
    let mut token_list: Vec<String> = Vec::new();
    token_list.push(msg.token_contract_address);
    assert(token_names(token_list@) =~= seq![msg.token_contract_address@]);
    let response = Response::new().add_attribute("method", "instantiate").add_attribute(
        "owner",
        info.sender.as_str(),
    );
    assert(response@.attributes =~= instantiate_response(info.sender@).attributes);
    (Vault::new(info.sender, token_list), response)
}

/// The request that `msg` makes when `sender` sends it. A deposit notice
/// comes from the token contract, and names the user it is for.
pub open spec fn request_of(sender: Seq<char>, msg: ExecuteMsg) -> Request {
    match msg {
        ExecuteMsg::Receive(notice) => Request::Deposit {
            token: sender,
            user: notice.sender@,
            amount: notice.amount,
        },
        ExecuteMsg::ListTokenOnLeverage { token_address } => Request::RegisterToken {
            caller: sender,
            token: token_address@,
        },
        ExecuteMsg::WithdrawToken { token_address, amount } => Request::Withdraw {
            caller: sender,
            token: token_address@,
            amount,
        },
        ExecuteMsg::Borrow { borrow_amount } => Request::Borrow {
            caller: sender,
            amount: borrow_amount,
        },
        ExecuteMsg::Repay { repay_amount } => Request::Repay { caller: sender, amount: repay_amount },
        ExecuteMsg::Burn { token_address, v_token_amount } => Request::Burn {
            caller: sender,
            token: token_address@,
            amount: v_token_amount,
        },
    }
}

/// What a request other than a withdrawal answers when it succeeds.
pub open spec fn response_of(sender: Seq<char>, msg: ExecuteMsg) -> ResponseView {
    match msg {
        ExecuteMsg::Receive(notice) => execute::deposit_response(sender, notice.sender@),
        ExecuteMsg::ListTokenOnLeverage { .. } => execute::list_token_response(),
        ExecuteMsg::Borrow { .. } => execute::borrow_response(),
        _ => empty_response(),
    }
}

/// Carries out `msg` for its sender.
///
/// Every request follows its rule of the model. A withdrawal also emits a
/// transfer, and fails where the transfer message cannot be encoded.
pub fn execute(vault: &mut Vault, info: MessageInfo, msg: ExecuteMsg) -> (result: Result<
    Response,
    ContractError,
>)
    ensures
        match msg {
            ExecuteMsg::WithdrawToken { token_address, amount } => execute::withdrawal_settles(
                old(vault)@,
                final(vault)@,
                result,
                info.sender@,
                token_address@,
                amount,
                cw20_transfer_json(info.sender@, amount),
            ),
            _ => execute::settles(
                old(vault)@,
                final(vault)@,
                result,
                model::apply(old(vault)@, request_of(info.sender@, msg)),
                response_of(info.sender@, msg),
            ),
        },
{
    match msg {
        ExecuteMsg::Receive(cw20_receive_msg) => execute::token_deposit(
            vault,
            info,
            cw20_receive_msg,
        ),
        ExecuteMsg::ListTokenOnLeverage { token_address } => execute::list_token_on_leverage(
            vault,
            info,
            token_address,
        ),
        ExecuteMsg::WithdrawToken { token_address, amount } => execute::token_withdraw(
            vault,
            info,
            token_address,
            amount,
        ),
        ExecuteMsg::Borrow { borrow_amount } => execute::borrow(vault, info, borrow_amount),
        ExecuteMsg::Repay { repay_amount } => execute::repay(vault, info, repay_amount),
        ExecuteMsg::Burn { token_address, v_token_amount } => execute::burn(
            vault,
            info,
            token_address,
            v_token_amount,
        ),
    }
}

/// Answers `msg` from the vault, which it leaves as it is.
pub fn query(vault: &Vault, msg: QueryMsg) -> (response: QueryResponse)
    ensures
        match msg {
            QueryMsg::UserTokenBalance { token_address, user_address } => {
                &&& response matches QueryResponse::UserTokenBalance(answer)
                &&& answer.usdc_amount == balance_of(
                    vault@.token_balance,
                    (token_address@, user_address@),
                )
            },
            QueryMsg::UserUnmintedTokenBalance { user_address } => {
                &&& response matches QueryResponse::UserUnmintedTokenBalance(answer)
                &&& answer.vtoken_amount == balance_of(vault@.unminted, user_address@)
            },
            QueryMsg::UserBorrowTokenBalance { user_address } => {
                &&& response matches QueryResponse::UserBorrowTokenBalance(answer)
                &&& answer.borrrow_vtoken_amount == balance_of(vault@.borrow, user_address@)
            },
            QueryMsg::UserProfitTokenBalance { user_address } => {
                &&& response matches QueryResponse::UserProfitTokenBalance(answer)
                &&& answer.profit_vtoken_amount == balance_of(vault@.profit, user_address@)
            },
            QueryMsg::ListedTokens {  } => {
                &&& response matches QueryResponse::ListedTokens(answer)
                &&& token_names(answer.listed_token@) == vault@.listed_token
            },
        },
{
    match msg {
        QueryMsg::UserTokenBalance { token_address, user_address } => {
            QueryResponse::UserTokenBalance(
                query::fetch_user_token_balance(vault, token_address, user_address),
            )
        },
        QueryMsg::UserUnmintedTokenBalance { user_address } => {
            QueryResponse::UserUnmintedTokenBalance(
                query::fetch_user_unminted_token_balance(vault, user_address),
            )
        },
        QueryMsg::UserBorrowTokenBalance { user_address } => {
            QueryResponse::UserBorrowTokenBalance(
                query::fetch_user_borrow_token_balance(vault, user_address),
            )
        },
        QueryMsg::UserProfitTokenBalance { user_address } => {
            QueryResponse::UserProfitTokenBalance(
                query::fetch_user_profit_token_balance(vault, user_address),
            )
        },
        QueryMsg::ListedTokens {  } => QueryResponse::ListedTokens(
            query::fetch_listed_tokens(vault),
        ),
    }
}

/// Answers the reply to a message that the vault sent: there is nothing to
/// do, and the answer is empty.
pub fn reply() -> (result: Result<Response, ContractError>)
    ensures
        result is Ok,
        result->Ok_0@ == empty_response(),
{
    Ok(Response::new())
}

} // verus!
