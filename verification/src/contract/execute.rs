//! The requests that change the vault, one function each.
//!
//! A request that fails leaves the vault as it was: every check is made
//! before the first balance is written.

use vstd::prelude::*;
use crate::error::ContractError;
use crate::math::{checked_add, checked_div, checked_mul, checked_sub};
use crate::model;
use crate::model::VaultView;
use crate::msg::{Cw20ReceiveMsg, MessageInfo};
use crate::response::{empty_response, Response, ResponseView, TokenTransfer, TokenTransferView};
use crate::state::Vault;
use crate::transfer::{cw20_transfer_json, encode_cw20_transfer};
use crate::RATE;

verus! {

/// The call did what `expected` says: where that is a next state, the vault
/// is in it and the call answered `response`; where it is a failure, the call
/// reported it and the vault is as it was.
pub open spec fn settles(
    before: VaultView,
    after: VaultView,
    result: Result<Response, ContractError>,
    expected: Result<VaultView, ContractError>,
    response: ResponseView,
) -> bool {
    match expected {
        Ok(next) => after == next && result is Ok && result->Ok_0@ == response,
        Err(e) => after == before && result == Err::<Response, ContractError>(e),
    }
}

/// The call did what a withdrawal of `amount` of `token` by `caller` does,
/// given `encoded`, the transfer message or `None` where encoding it failed:
/// the ledger's rule decides first, and an encoding failure turns a
/// withdrawal that the rule allows into a `Std` failure.
pub open spec fn withdrawal_settles(
    before: VaultView,
    after: VaultView,
    result: Result<Response, ContractError>,
    caller: Seq<char>,
    token: Seq<char>,
    amount: u128,
    encoded: Option<Seq<u8>>,
) -> bool {
    match encoded {
        Some(transfer_msg) => settles(
            before,
            after,
            result,
            model::withdraw(before, caller, token, amount as int),
            withdraw_response(token, caller, amount as int, transfer_msg),
        ),
        None => match model::withdraw(before, caller, token, amount as int) {
            Ok(_) => after == before && result is Err && result->Err_0 is Std,
            Err(e) => after == before && result == Err::<Response, ContractError>(e),
        },
    }
}

/// What a withdrawal answers: the method, the token, the user, and the one
/// transfer that hands `amount` of `token` to `user`.
pub open spec fn withdraw_response(
    token: Seq<char>,
    user: Seq<char>,
    amount: int,
    transfer_msg: Seq<u8>,
) -> ResponseView {
    ResponseView {
        messages: seq![
            TokenTransferView { contract_addr: token, recipient: user, amount, msg: transfer_msg },
        ],
        attributes: seq![
            ("method"@, "token_withdraw"@),
            ("token_address"@, token),
            ("user"@, user),
        ],
    }
}

/// Withdraws `amount` of `token_address` for the sender and emits the
/// transfer that hands the tokens over.
///
/// The sender must owe no borrow and hold at least `amount` of the token;
/// the unminted credit falls by the credit that `amount` corresponds to and
/// must cover it. The transfer message is encoded by the token standard's own
/// code; where that fails, so does the withdrawal.
pub fn token_withdraw(
    vault: &mut Vault,
    info: MessageInfo,
    token_address: String,
    amount: u128,
) -> (result: Result<Response, ContractError>)
    ensures
        withdrawal_settles(
            old(vault)@,
            final(vault)@,
            result,
            info.sender@,
            token_address@,
            amount,
            cw20_transfer_json(info.sender@, amount),
        ),
{
    let transfer_msg = encode_cw20_transfer(&info.sender, amount);
    withdraw_with_transfer(vault, info, token_address, amount, transfer_msg)
}

/// Withdraws `amount` of `token_address` for the sender, given the outcome of
/// encoding the transfer message.
///
/// The ledger's own checks come first; an encoding failure is reported only
/// for a withdrawal that they allow.
pub fn withdraw_with_transfer(
    vault: &mut Vault,
    info: MessageInfo,
    token_address: String,
    amount: u128,
    transfer_msg: Result<Vec<u8>, cosmwasm_std::StdError>,
) -> (result: Result<Response, ContractError>)
    ensures
        withdrawal_settles(
            old(vault)@,
            final(vault)@,
            result,
            info.sender@,
            token_address@,
            amount,
            match transfer_msg {
                Ok(bytes) => Some(bytes@),
                Err(_) => None,
            },
        ),
        transfer_msg matches Err(e) ==> (model::withdraw(
            old(vault)@,
            info.sender@,
            token_address@,
            amount as int,
        ) is Ok ==> result == Err::<Response, ContractError>(ContractError::Std(e))),
{
    let user_borrow_balance: u128 = vault.user_borrow_balance.balance(&info.sender);
    if user_borrow_balance > 0 {
        return Err(ContractError::BorrowAmountIsNotZero {  });
    }
    let key = (token_address.clone(), info.sender.clone());
    let user_balance: u128 = vault.user_token_balance.balance(&key);
    if user_balance < amount {
        return Err(ContractError::InsufficientBalance {  });
    }
    let remaining: u128 = match checked_sub(user_balance, amount) {
        Ok(data) => data,
        Err(_) => {
            return Err(ContractError::Overflow {  });
        },
    };
    let remove_unminted_token: u128 = match checked_mul(amount, RATE) {
        Ok(data) => data,
        Err(_) => 0,
    };
    let user_unminted_token: u128 = vault.user_unminted_token.balance(&info.sender);
    let remaining_unminted: u128 = match checked_sub(user_unminted_token, remove_unminted_token) {
        Ok(data) => data,
        Err(_) => {
            return Err(ContractError::Overflow {  });
        },
    };
    let msg = match transfer_msg {
        Ok(bytes) => bytes,
        Err(e) => {
            return Err(ContractError::Std(e));
        },
    };
    vault.user_token_balance.save(key, remaining);
    vault.user_unminted_token.save(info.sender.clone(), remaining_unminted);

    let execute_cw20_token_transfer = TokenTransfer {
        contract_addr: token_address.clone(),
        recipient: info.sender.clone(),
        amount,
        msg,
    };
    let response = Response::new().add_attribute("method", "token_withdraw").add_attribute(
        "token_address",
        token_address.as_str(),
    ).add_attribute("user", info.sender.as_str()).add_message(execute_cw20_token_transfer);
    assert(response@.attributes =~= withdraw_response(
        token_address@,
        info.sender@,
        amount as int,
        msg@,
    ).attributes);
    assert(response@.messages =~= withdraw_response(
        token_address@,
        info.sender@,
        amount as int,
        msg@,
    ).messages);
    Ok(response)
}

/// What a deposit answers: the method, the user credited and the token.
pub open spec fn deposit_response(token: Seq<char>, user: Seq<char>) -> ResponseView {
    ResponseView {
        messages: Seq::empty(),
        attributes: seq![
            ("method"@, "token_deposit"@),
            ("token_owner"@, user),
            ("token_address"@, token),
        ],
    }
}

/// What a borrow answers: the method alone.
pub open spec fn borrow_response() -> ResponseView {
    ResponseView {
        messages: Seq::empty(),
        attributes: seq![("method"@, "borrow_leverage"@)],
    }
}

/// What listing a token answers: the method alone.
pub open spec fn list_token_response() -> ResponseView {
    ResponseView {
        messages: Seq::empty(),
        attributes: seq![("method"@, "list_token_on_leverage"@)],
    }
}

/// Adds `token_address` to the accepted tokens, for the owner only.
///
/// Any other sender is refused and the list stays as it is. A token that is
/// listed already is listed once more.
pub fn list_token_on_leverage(vault: &mut Vault, info: MessageInfo, token_address: String) -> (result:
    Result<Response, ContractError>)
    ensures
        settles(old(vault)@, final(vault)@, result, model::register_token(old(vault)@, info.sender@, token_address@), list_token_response()),
        info.sender@ != old(vault)@.owner ==> {
            &&& result == Err::<Response, ContractError>(ContractError::Unauthorized {  })
            &&& final(vault)@ == old(vault)@
        },
{
    if vault.leverage_contract_owner != info.sender {
        return Err(ContractError::Unauthorized {  });
    }
    vault.listed_token.push(token_address);
    assert(vault@.listed_token =~= old(vault)@.listed_token.push(token_address@));
    let response = Response::new().add_attribute("method", "list_token_on_leverage");
    assert(response@.attributes =~= list_token_response().attributes);
    Ok(response)
}

/// Credits a deposit that the token contract `info.sender` reports for the
/// user `msg.sender`.
///
/// The token must be accepted. The user's balance of the token grows by the
/// amount, and the unminted credit by the credit that the amount corresponds
/// to.
pub fn token_deposit(vault: &mut Vault, info: MessageInfo, msg: Cw20ReceiveMsg) -> (result: Result<
    Response,
    ContractError,
>)
    ensures
        settles(old(vault)@, final(vault)@, result, model::deposit(old(vault)@, info.sender@, msg.sender@, msg.amount as int), deposit_response(info.sender@, msg.sender@)),
{
    if !vault.is_registered(&info.sender) {
        return Err(ContractError::UnauthorizedToken {  });
    }
    let key = (info.sender.clone(), msg.sender.clone());
    let user_balance: u128 = vault.user_token_balance.balance(&key);
    let new_balance: u128 = match checked_add(user_balance, msg.amount) {
        Ok(data) => data,
        Err(_) => {
            return Err(ContractError::OverflowBalance {  });
        },
    };
    let unminted_token: u128 = match checked_mul(msg.amount, RATE) {
        Ok(data) => data,
        Err(_) => 0,
    };
    let user_unminted_token: u128 = vault.user_unminted_token.balance(&msg.sender);
    let new_unminted: u128 = match checked_add(user_unminted_token, unminted_token) {
        Ok(data) => data,
        Err(_) => {
            return Err(ContractError::OverflowBalance {  });
        },
    };
    vault.user_token_balance.save(key, new_balance);
    vault.user_unminted_token.save(msg.sender.clone(), new_unminted);

    let response = Response::new().add_attribute("method", "token_deposit").add_attribute(
        "token_owner",
        msg.sender.as_str(),
    ).add_attribute("token_address", info.sender.as_str());
    assert(response@.attributes =~= deposit_response(info.sender@, msg.sender@).attributes);
    Ok(response)
}

/// Moves `borrow_amount` from the sender's unminted credit to the sender's
/// borrow balance.
pub fn borrow(vault: &mut Vault, info: MessageInfo, borrow_amount: u128) -> (result: Result<
    Response,
    ContractError,
>)
    ensures
        settles(old(vault)@, final(vault)@, result, model::borrow(old(vault)@, info.sender@, borrow_amount as int), borrow_response()),
{
    let user_unminted_token: u128 = vault.user_unminted_token.balance(&info.sender);
    if user_unminted_token < borrow_amount {
        return Err(ContractError::InsufficientUnmintedToken {  });
    }
    let unminted_balance: u128 = match checked_sub(user_unminted_token, borrow_amount) {
        Ok(data) => data,
        Err(_) => {
            return Err(ContractError::Overflow {  });
        },
    };
    let user_borrow_balance: u128 = vault.user_borrow_balance.balance(&info.sender);
    let borrow_balance: u128 = match checked_add(user_borrow_balance, borrow_amount) {
        Ok(data) => data,
        Err(_) => {
            return Err(ContractError::Overflow {  });
        },
    };
    vault.user_unminted_token.save(info.sender.clone(), unminted_balance);
    vault.user_borrow_balance.save(info.sender.clone(), borrow_balance);

    let response = Response::new().add_attribute("method", "borrow_leverage");
    assert(response@.attributes =~= borrow_response().attributes);
    Ok(response)
}

/// Moves `repay_amount` from the sender's borrow balance back to the
/// sender's unminted credit.
pub fn repay(vault: &mut Vault, info: MessageInfo, repay_amount: u128) -> (result: Result<
    Response,
    ContractError,
>)
    ensures
        settles(old(vault)@, final(vault)@, result, model::repay(old(vault)@, info.sender@, repay_amount as int), empty_response()),
{
    let user_borrow_balance: u128 = vault.user_borrow_balance.balance(&info.sender);
    if user_borrow_balance < repay_amount {
        return Err(ContractError::RepayOverflow {  });
    }
    let borrow_balance: u128 = match checked_sub(user_borrow_balance, repay_amount) {
        Ok(data) => data,
        Err(_) => {
            return Err(ContractError::OverflowBalance {  });
        },
    };
    let user_unminted_token: u128 = vault.user_unminted_token.balance(&info.sender);
    let unminted_balance: u128 = match checked_add(user_unminted_token, repay_amount) {
        Ok(data) => data,
        Err(_) => {
            return Err(ContractError::InsufficientBalance {  });
        },
    };
    vault.user_borrow_balance.save(info.sender.clone(), borrow_balance);
    vault.user_unminted_token.save(info.sender.clone(), unminted_balance);

    Ok(Response::new())
}

/// Burns `v_token_amount` of credit for the sender: the sender's balance of
/// `token_address` grows by the amount divided by the rate, rounded down, and
/// the unminted credit by the amount itself.
///
/// The sender must owe no borrow, and the profit balance must cover the
/// amount; the profit balance is read and never written.
pub fn burn(vault: &mut Vault, info: MessageInfo, token_address: String, v_token_amount: u128) -> (result:
    Result<Response, ContractError>)
    ensures
        settles(old(vault)@, final(vault)@, result, model::burn(old(vault)@, info.sender@, token_address@, v_token_amount as int), empty_response()),
{
    let user_borrow_balance: u128 = vault.user_borrow_balance.balance(&info.sender);
    if user_borrow_balance > 0 {
        return Err(ContractError::PayBorrowAmount {  });
    }
    let user_profit_balance: u128 = vault.user_profit_token.balance(&info.sender);
    if user_profit_balance < v_token_amount {
        return Err(ContractError::InsufficientBalance {  });
    }
    let user_usdc_amount: u128 = match checked_div(v_token_amount, RATE) {
        Ok(data) => data,
        Err(_) => {
            return Err(ContractError::Overflow {  });
        },
    };
    let key = (token_address, info.sender.clone());
    let user_balance: u128 = vault.user_token_balance.balance(&key);
    let new_balance: u128 = match checked_add(user_balance, user_usdc_amount) {
        Ok(data) => data,
        Err(_) => {
            return Err(ContractError::Overflow {  });
        },
    };
    let user_unminted_token: u128 = vault.user_unminted_token.balance(&info.sender);
    let new_unminted: u128 = match checked_add(user_unminted_token, v_token_amount) {
        Ok(data) => data,
        Err(_) => {
            return Err(ContractError::Overflow {  });
        },
    };
    vault.user_token_balance.save(key, new_balance);
    vault.user_unminted_token.save(info.sender.clone(), new_unminted);

    Ok(Response::new())
}

} // verus!
