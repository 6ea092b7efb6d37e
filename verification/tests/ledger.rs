use leverage_contract::contract::execute::{
    borrow, burn, list_token_on_leverage, repay, token_deposit, token_withdraw,
    withdraw_with_transfer,
};
use leverage_contract::contract::query::{
    fetch_listed_tokens, fetch_user_borrow_token_balance, fetch_user_profit_token_balance,
    fetch_user_token_balance, fetch_user_unminted_token_balance,
};
use leverage_contract::contract::{execute, instantiate, query, reply};
use leverage_contract::error::ContractError;
use leverage_contract::msg::{
    Cw20ReceiveMsg, ExecuteMsg, InstantiateMsg, MessageInfo, QueryMsg, QueryResponse,
};
use leverage_contract::response::{Attribute, Response};
use leverage_contract::state::Vault;
use leverage_contract::RATE;

fn from(sender: &str) -> MessageInfo {
    MessageInfo { sender: sender.to_string() }
}

fn notice(user: &str, amount: u128) -> Cw20ReceiveMsg {
    Cw20ReceiveMsg { sender: user.to_string(), amount, msg: Vec::new() }
}

fn attribute(key: &str, value: &str) -> Attribute {
    Attribute { key: key.to_string(), value: value.to_string() }
}

fn vault_with_usdc() -> Vault {
    let (vault, _) = instantiate(
        from("creator"),
        InstantiateMsg { token_contract_address: "usdc".to_string() },
    );
    vault
}

fn token_balance(vault: &Vault, token: &str, user: &str) -> u128 {
    fetch_user_token_balance(vault, token.to_string(), user.to_string()).usdc_amount
}

fn unminted(vault: &Vault, user: &str) -> u128 {
    fetch_user_unminted_token_balance(vault, user.to_string()).vtoken_amount
}

fn borrowed(vault: &Vault, user: &str) -> u128 {
    fetch_user_borrow_token_balance(vault, user.to_string()).borrrow_vtoken_amount
}

fn profit(vault: &Vault, user: &str) -> u128 {
    fetch_user_profit_token_balance(vault, user.to_string()).profit_vtoken_amount
}

fn balances(vault: &Vault, token: &str, user: &str) -> (u128, u128, u128, u128) {
    (
        token_balance(vault, token, user),
        unminted(vault, user),
        borrowed(vault, user),
        profit(vault, user),
    )
}

#[test]
fn cw_multi_instantiate() {
    let (mut vault, created) = instantiate(
        from("creator"),
        InstantiateMsg { token_contract_address: String::from("usdc_contract") },
    );
    assert_eq!(
        created.attributes,
        vec![attribute("method", "instantiate"), attribute("owner", "creator")]
    );

    let execute_deposit_msg = ExecuteMsg::Receive(Cw20ReceiveMsg {
        sender: String::from("user_one"),
        amount: 1000u128,
        msg: b"{}".to_vec(),
    });
    let exe = execute(&mut vault, from("usdc_contract"), execute_deposit_msg).unwrap();
    println!("{:?}", exe);

    let res_query_user_token_balance = query(
        &vault,
        QueryMsg::UserTokenBalance {
            token_address: String::from("usdc_contract"),
            user_address: String::from("user_one"),
        },
    );
    println!("Response: {:?}", res_query_user_token_balance);
    match res_query_user_token_balance {
        QueryResponse::UserTokenBalance(answer) => assert_eq!(answer.usdc_amount, 1000),
        other => panic!("unexpected answer {:?}", other),
    }

    let withdraw_exe_msg = ExecuteMsg::WithdrawToken {
        token_address: String::from("usdc_contract"),
        amount: 10u128,
    };
    let withdraw_exe = execute(&mut vault, from("user_one"), withdraw_exe_msg);
    println!("{:?}", withdraw_exe);
    let withdrawn = withdraw_exe.unwrap();
    assert_eq!(withdrawn.messages.len(), 1);
    assert_eq!(token_balance(&vault, "usdc_contract", "user_one"), 990);
    assert_eq!(unminted(&vault, "user_one"), 9900);
}

#[test]
fn rate_is_ten() {
    assert_eq!(RATE, 10);
}

#[test]
fn instantiate_sets_owner_and_first_token() {
    let (vault, response) = instantiate(
        from("creator"),
        InstantiateMsg { token_contract_address: "usdc".to_string() },
    );
    assert_eq!(vault.leverage_contract_owner, "creator");
    assert_eq!(fetch_listed_tokens(&vault).listed_token, vec!["usdc".to_string()]);
    assert_eq!(balances(&vault, "usdc", "creator"), (0, 0, 0, 0));
    assert!(response.messages.is_empty());
    assert_eq!(
        response.attributes,
        vec![attribute("method", "instantiate"), attribute("owner", "creator")]
    );
}

#[test]
fn owner_lists_a_token() {
    let mut vault = vault_with_usdc();
    let response = list_token_on_leverage(&mut vault, from("creator"), "dai".to_string()).unwrap();
    assert_eq!(response.attributes, vec![attribute("method", "list_token_on_leverage")]);
    assert!(response.messages.is_empty());
    assert_eq!(
        fetch_listed_tokens(&vault).listed_token,
        vec!["usdc".to_string(), "dai".to_string()]
    );
    assert!(vault.is_registered(&"dai".to_string()));
    assert!(vault.is_registered(&"usdc".to_string()));
    assert!(!vault.is_registered(&"eth".to_string()));
}

#[test]
fn non_owner_cannot_list_a_token() {
    let mut vault = vault_with_usdc();
    let result = list_token_on_leverage(&mut vault, from("mallory"), "dai".to_string());
    assert_eq!(result, Err(ContractError::Unauthorized {}));
    assert_eq!(fetch_listed_tokens(&vault).listed_token, vec!["usdc".to_string()]);
    assert!(!vault.is_registered(&"dai".to_string()));

    let through_dispatch = execute(
        &mut vault,
        from("mallory"),
        ExecuteMsg::ListTokenOnLeverage { token_address: "dai".to_string() },
    );
    assert_eq!(through_dispatch, Err(ContractError::Unauthorized {}));
    assert_eq!(fetch_listed_tokens(&vault).listed_token, vec!["usdc".to_string()]);
}

#[test]
fn listing_a_token_twice_keeps_both_entries() {
    let mut vault = vault_with_usdc();
    list_token_on_leverage(&mut vault, from("creator"), "usdc".to_string()).unwrap();
    assert_eq!(
        fetch_listed_tokens(&vault).listed_token,
        vec!["usdc".to_string(), "usdc".to_string()]
    );
    assert!(vault.is_registered(&"usdc".to_string()));
}

#[test]
fn deposit_from_unlisted_token_is_refused() {
    let mut vault = vault_with_usdc();
    let result = token_deposit(&mut vault, from("dai"), notice("alice", 1000));
    assert_eq!(result, Err(ContractError::UnauthorizedToken {}));
    assert_eq!(balances(&vault, "dai", "alice"), (0, 0, 0, 0));
    assert_eq!(vault.user_token_balance.may_load(&("dai".to_string(), "alice".to_string())), None);
    assert_eq!(vault.user_unminted_token.may_load(&"alice".to_string()), None);
}

#[test]
fn deposit_credits_token_and_ten_times_unminted() {
    let mut vault = vault_with_usdc();
    let response = token_deposit(&mut vault, from("usdc"), notice("alice", 1000)).unwrap();
    assert_eq!(token_balance(&vault, "usdc", "alice"), 1000);
    assert_eq!(unminted(&vault, "alice"), 10000);
    assert_eq!(borrowed(&vault, "alice"), 0);
    assert_eq!(
        response.attributes,
        vec![
            attribute("method", "token_deposit"),
            attribute("token_owner", "alice"),
            attribute("token_address", "usdc"),
        ]
    );
    assert!(response.messages.is_empty());
}

#[test]
fn deposits_add_up_per_token_and_user() {
    let mut vault = vault_with_usdc();
    list_token_on_leverage(&mut vault, from("creator"), "dai".to_string()).unwrap();
    token_deposit(&mut vault, from("usdc"), notice("alice", 7)).unwrap();
    token_deposit(&mut vault, from("usdc"), notice("alice", 5)).unwrap();
    token_deposit(&mut vault, from("dai"), notice("alice", 3)).unwrap();
    token_deposit(&mut vault, from("usdc"), notice("bob", 1)).unwrap();
    assert_eq!(token_balance(&vault, "usdc", "alice"), 12);
    assert_eq!(token_balance(&vault, "dai", "alice"), 3);
    assert_eq!(unminted(&vault, "alice"), 150);
    assert_eq!(token_balance(&vault, "usdc", "bob"), 1);
    assert_eq!(unminted(&vault, "bob"), 10);
    assert_eq!(token_balance(&vault, "dai", "bob"), 0);
}

#[test]
fn borrow_then_withdraw_is_refused_until_repaid() {
    let mut vault = vault_with_usdc();
    token_deposit(&mut vault, from("usdc"), notice("alice", 1000)).unwrap();

    let response = borrow(&mut vault, from("alice"), 4000).unwrap();
    assert_eq!(response.attributes, vec![attribute("method", "borrow_leverage")]);
    assert!(response.messages.is_empty());
    assert_eq!(unminted(&vault, "alice"), 6000);
    assert_eq!(borrowed(&vault, "alice"), 4000);

    let refused = token_withdraw(&mut vault, from("alice"), "usdc".to_string(), 10);
    assert_eq!(refused, Err(ContractError::BorrowAmountIsNotZero {}));
    assert_eq!(balances(&vault, "usdc", "alice"), (1000, 6000, 4000, 0));

    let repaid = repay(&mut vault, from("alice"), 4000).unwrap();
    assert_eq!(repaid, Response { messages: vec![], attributes: vec![] });
    assert_eq!(borrowed(&vault, "alice"), 0);
    assert_eq!(unminted(&vault, "alice"), 10000);

    let withdrawn = token_withdraw(&mut vault, from("alice"), "usdc".to_string(), 10).unwrap();
    assert_eq!(token_balance(&vault, "usdc", "alice"), 990);
    assert_eq!(unminted(&vault, "alice"), 9900);
    assert_eq!(
        withdrawn.attributes,
        vec![
            attribute("method", "token_withdraw"),
            attribute("token_address", "usdc"),
            attribute("user", "alice"),
        ]
    );
    assert_eq!(withdrawn.messages.len(), 1);
    let transfer = &withdrawn.messages[0];
    assert_eq!(transfer.contract_addr, "usdc");
    assert_eq!(transfer.recipient, "alice");
    assert_eq!(transfer.amount, 10);
    assert_eq!(
        transfer.msg,
        br#"{"transfer":{"recipient":"alice","amount":"10"}}"#.to_vec()
    );
}

#[test]
fn transfer_message_is_the_cw20_encoding() {
    let mut vault = vault_with_usdc();
    token_deposit(&mut vault, from("usdc"), notice("bob", 5)).unwrap();
    let withdrawn = token_withdraw(&mut vault, from("bob"), "usdc".to_string(), 3).unwrap();
    let expected = cosmwasm_std::to_json_binary(&cw20::Cw20ExecuteMsg::Transfer {
        recipient: "bob".to_string(),
        amount: cosmwasm_std::Uint128::new(3),
    })
    .unwrap();
    assert_eq!(withdrawn.messages[0].msg, expected.to_vec());
    assert_ne!(withdrawn.messages[0].msg, b"bob".to_vec());
}

#[test]
fn deposit_then_withdraw_restores_balances() {
    let mut vault = vault_with_usdc();
    token_deposit(&mut vault, from("usdc"), notice("alice", 40)).unwrap();
    let before = balances(&vault, "usdc", "alice");
    assert_eq!(before, (40, 400, 0, 0));

    token_deposit(&mut vault, from("usdc"), notice("alice", 123)).unwrap();
    assert_eq!(balances(&vault, "usdc", "alice"), (163, 1630, 0, 0));
    token_withdraw(&mut vault, from("alice"), "usdc".to_string(), 123).unwrap();
    assert_eq!(balances(&vault, "usdc", "alice"), before);
}

#[test]
fn deposit_then_withdraw_restores_balances_when_the_credit_product_overflows() {
    let mut vault = vault_with_usdc();
    token_deposit(&mut vault, from("usdc"), notice("alice", 1)).unwrap();
    let huge = u128::MAX - 1;
    token_deposit(&mut vault, from("usdc"), notice("alice", huge)).unwrap();
    assert_eq!(balances(&vault, "usdc", "alice"), (u128::MAX, 10, 0, 0));
    token_withdraw(&mut vault, from("alice"), "usdc".to_string(), huge).unwrap();
    assert_eq!(balances(&vault, "usdc", "alice"), (1, 10, 0, 0));
}

#[test]
fn failed_withdraw_changes_nothing_and_succeeds_after_a_deposit() {
    let mut vault = vault_with_usdc();
    token_deposit(&mut vault, from("usdc"), notice("alice", 5)).unwrap();
    let before = balances(&vault, "usdc", "alice");

    let refused = token_withdraw(&mut vault, from("alice"), "usdc".to_string(), 8);
    assert_eq!(refused, Err(ContractError::InsufficientBalance {}));
    assert_eq!(balances(&vault, "usdc", "alice"), before);

    token_deposit(&mut vault, from("usdc"), notice("alice", 3)).unwrap();
    token_withdraw(&mut vault, from("alice"), "usdc".to_string(), 8).unwrap();
    assert_eq!(balances(&vault, "usdc", "alice"), (0, 0, 0, 0));
}

#[test]
fn failed_borrow_changes_nothing_and_succeeds_after_a_deposit() {
    let mut vault = vault_with_usdc();
    let refused = borrow(&mut vault, from("alice"), 30);
    assert_eq!(refused, Err(ContractError::InsufficientUnmintedToken {}));
    assert_eq!(balances(&vault, "usdc", "alice"), (0, 0, 0, 0));
    assert_eq!(vault.user_unminted_token.may_load(&"alice".to_string()), None);
    assert_eq!(vault.user_borrow_balance.may_load(&"alice".to_string()), None);

    token_deposit(&mut vault, from("usdc"), notice("alice", 3)).unwrap();
    borrow(&mut vault, from("alice"), 30).unwrap();
    assert_eq!(balances(&vault, "usdc", "alice"), (3, 0, 30, 0));
}

#[test]
fn withdraw_more_than_held_is_refused() {
    let mut vault = vault_with_usdc();
    let refused = token_withdraw(&mut vault, from("alice"), "usdc".to_string(), 1);
    assert_eq!(refused, Err(ContractError::InsufficientBalance {}));
    assert_eq!(balances(&vault, "usdc", "alice"), (0, 0, 0, 0));
}

#[test]
fn withdraw_of_nothing_from_an_empty_account_succeeds() {
    let mut vault = vault_with_usdc();
    let withdrawn = token_withdraw(&mut vault, from("alice"), "usdc".to_string(), 0).unwrap();
    assert_eq!(withdrawn.messages.len(), 1);
    assert_eq!(withdrawn.messages[0].amount, 0);
    assert_eq!(balances(&vault, "usdc", "alice"), (0, 0, 0, 0));
}

#[test]
fn withdraw_that_the_unminted_credit_does_not_cover_is_refused() {
    let mut vault = vault_with_usdc();
    token_deposit(&mut vault, from("usdc"), notice("alice", 100)).unwrap();
    vault.user_unminted_token.save("alice".to_string(), 5);
    let refused = token_withdraw(&mut vault, from("alice"), "usdc".to_string(), 1);
    assert_eq!(refused, Err(ContractError::Overflow {}));
    assert_eq!(balances(&vault, "usdc", "alice"), (100, 5, 0, 0));
}

#[test]
fn withdraw_whose_credit_product_overflows_removes_no_credit() {
    let mut vault = vault_with_usdc();
    vault.user_token_balance.save(("usdc".to_string(), "alice".to_string()), u128::MAX);
    vault.user_unminted_token.save("alice".to_string(), 7);
    token_withdraw(&mut vault, from("alice"), "usdc".to_string(), u128::MAX).unwrap();
    assert_eq!(balances(&vault, "usdc", "alice"), (0, 7, 0, 0));
}

#[test]
fn withdraw_reports_an_encoding_failure_and_changes_nothing() {
    let mut vault = vault_with_usdc();
    token_deposit(&mut vault, from("usdc"), notice("alice", 9)).unwrap();
    let result = withdraw_with_transfer(
        &mut vault,
        from("alice"),
        "usdc".to_string(),
        4,
        Err(cosmwasm_std::StdError::generic_err("no encoding")),
    );
    assert_eq!(
        result,
        Err(ContractError::Std(cosmwasm_std::StdError::generic_err("no encoding")))
    );
    assert_eq!(balances(&vault, "usdc", "alice"), (9, 90, 0, 0));
}

#[test]
fn withdraw_checks_the_ledger_before_the_encoding() {
    let mut vault = vault_with_usdc();
    token_deposit(&mut vault, from("usdc"), notice("alice", 9)).unwrap();
    let result = withdraw_with_transfer(
        &mut vault,
        from("alice"),
        "usdc".to_string(),
        10,
        Err(cosmwasm_std::StdError::generic_err("no encoding")),
    );
    assert_eq!(result, Err(ContractError::InsufficientBalance {}));
}

#[test]
fn withdraw_with_transfer_carries_the_given_message() {
    let mut vault = vault_with_usdc();
    token_deposit(&mut vault, from("usdc"), notice("alice", 9)).unwrap();
    let response = withdraw_with_transfer(
        &mut vault,
        from("alice"),
        "usdc".to_string(),
        4,
        Ok(vec![1, 2, 3]),
    )
    .unwrap();
    assert_eq!(response.messages.len(), 1);
    assert_eq!(response.messages[0].msg, vec![1, 2, 3]);
    assert_eq!(response.messages[0].contract_addr, "usdc");
    assert_eq!(response.messages[0].recipient, "alice");
    assert_eq!(response.messages[0].amount, 4);
    assert_eq!(balances(&vault, "usdc", "alice"), (5, 50, 0, 0));
}

#[test]
fn deposit_overflowing_the_token_balance_is_refused() {
    let mut vault = vault_with_usdc();
    token_deposit(&mut vault, from("usdc"), notice("alice", u128::MAX)).unwrap();
    assert_eq!(balances(&vault, "usdc", "alice"), (u128::MAX, 0, 0, 0));
    let refused = token_deposit(&mut vault, from("usdc"), notice("alice", 1));
    assert_eq!(refused, Err(ContractError::OverflowBalance {}));
    assert_eq!(balances(&vault, "usdc", "alice"), (u128::MAX, 0, 0, 0));
}

#[test]
fn deposit_overflowing_the_unminted_credit_is_refused_as_a_whole() {
    let mut vault = vault_with_usdc();
    let tenth = u128::MAX / 10;
    token_deposit(&mut vault, from("usdc"), notice("alice", tenth)).unwrap();
    assert_eq!(balances(&vault, "usdc", "alice"), (tenth, tenth * 10, 0, 0));
    let refused = token_deposit(&mut vault, from("usdc"), notice("alice", tenth));
    assert_eq!(refused, Err(ContractError::OverflowBalance {}));
    assert_eq!(balances(&vault, "usdc", "alice"), (tenth, tenth * 10, 0, 0));
}

#[test]
fn deposit_whose_credit_product_overflows_mints_nothing() {
    let mut vault = vault_with_usdc();
    let amount = u128::MAX / 10 + 1;
    token_deposit(&mut vault, from("usdc"), notice("alice", amount)).unwrap();
    assert_eq!(balances(&vault, "usdc", "alice"), (amount, 0, 0, 0));
}

#[test]
fn borrow_moves_credit_to_the_borrow_balance() {
    let mut vault = vault_with_usdc();
    token_deposit(&mut vault, from("usdc"), notice("alice", 10)).unwrap();
    borrow(&mut vault, from("alice"), 100).unwrap();
    assert_eq!(balances(&vault, "usdc", "alice"), (10, 0, 100, 0));
    let refused = borrow(&mut vault, from("alice"), 1);
    assert_eq!(refused, Err(ContractError::InsufficientUnmintedToken {}));
    assert_eq!(balances(&vault, "usdc", "alice"), (10, 0, 100, 0));
}

#[test]
fn borrow_overflowing_the_borrow_balance_is_refused() {
    let mut vault = vault_with_usdc();
    vault.user_unminted_token.save("alice".to_string(), u128::MAX);
    vault.user_borrow_balance.save("alice".to_string(), 1);
    let refused = borrow(&mut vault, from("alice"), u128::MAX);
    assert_eq!(refused, Err(ContractError::Overflow {}));
    assert_eq!(balances(&vault, "usdc", "alice"), (0, u128::MAX, 1, 0));
}

#[test]
fn repay_more_than_owed_is_refused() {
    let mut vault = vault_with_usdc();
    token_deposit(&mut vault, from("usdc"), notice("alice", 10)).unwrap();
    borrow(&mut vault, from("alice"), 60).unwrap();
    let refused = repay(&mut vault, from("alice"), 61);
    assert_eq!(refused, Err(ContractError::RepayOverflow {}));
    assert_eq!(balances(&vault, "usdc", "alice"), (10, 40, 60, 0));
    repay(&mut vault, from("alice"), 25).unwrap();
    assert_eq!(balances(&vault, "usdc", "alice"), (10, 65, 35, 0));
}

#[test]
fn repay_overflowing_the_unminted_credit_is_refused() {
    let mut vault = vault_with_usdc();
    vault.user_unminted_token.save("alice".to_string(), u128::MAX);
    vault.user_borrow_balance.save("alice".to_string(), 5);
    let refused = repay(&mut vault, from("alice"), 5);
    assert_eq!(refused, Err(ContractError::InsufficientBalance {}));
    assert_eq!(balances(&vault, "usdc", "alice"), (0, u128::MAX, 5, 0));
}

#[test]
fn repay_of_nothing_by_a_stranger_succeeds() {
    let mut vault = vault_with_usdc();
    repay(&mut vault, from("alice"), 0).unwrap();
    assert_eq!(balances(&vault, "usdc", "alice"), (0, 0, 0, 0));
}

#[test]
fn burn_without_profit_is_refused() {
    let mut vault = vault_with_usdc();
    token_deposit(&mut vault, from("usdc"), notice("alice", 1000)).unwrap();
    let refused = burn(&mut vault, from("alice"), "usdc".to_string(), 1);
    assert_eq!(refused, Err(ContractError::InsufficientBalance {}));
    assert_eq!(balances(&vault, "usdc", "alice"), (1000, 10000, 0, 0));
    let refused = burn(&mut vault, from("alice"), "usdc".to_string(), u128::MAX);
    assert_eq!(refused, Err(ContractError::InsufficientBalance {}));
    assert_eq!(balances(&vault, "usdc", "alice"), (1000, 10000, 0, 0));
}

#[test]
fn burn_with_a_borrow_outstanding_is_refused() {
    let mut vault = vault_with_usdc();
    token_deposit(&mut vault, from("usdc"), notice("alice", 1000)).unwrap();
    borrow(&mut vault, from("alice"), 1).unwrap();
    vault.user_profit_token.save("alice".to_string(), 500);
    let refused = burn(&mut vault, from("alice"), "usdc".to_string(), 10);
    assert_eq!(refused, Err(ContractError::PayBorrowAmount {}));
    assert_eq!(balances(&vault, "usdc", "alice"), (1000, 9999, 1, 500));
}

#[test]
fn burn_credits_a_tenth_rounded_down_and_keeps_the_profit() {
    let mut vault = vault_with_usdc();
    token_deposit(&mut vault, from("usdc"), notice("alice", 2)).unwrap();
    vault.user_profit_token.save("alice".to_string(), 500);
    let response = burn(&mut vault, from("alice"), "usdc".to_string(), 57).unwrap();
    assert_eq!(response, Response { messages: vec![], attributes: vec![] });
    assert_eq!(balances(&vault, "usdc", "alice"), (7, 77, 0, 500));
    burn(&mut vault, from("alice"), "usdc".to_string(), 9).unwrap();
    assert_eq!(balances(&vault, "usdc", "alice"), (7, 86, 0, 500));
    let refused = burn(&mut vault, from("alice"), "usdc".to_string(), 501);
    assert_eq!(refused, Err(ContractError::InsufficientBalance {}));
}

#[test]
fn burn_into_an_account_without_rows_credits_it() {
    let mut vault = vault_with_usdc();
    vault.user_profit_token.save("carol".to_string(), 30);
    burn(&mut vault, from("carol"), "usdc".to_string(), 30).unwrap();
    assert_eq!(balances(&vault, "usdc", "carol"), (3, 30, 0, 30));
}

#[test]
fn burn_overflowing_the_token_balance_is_refused() {
    let mut vault = vault_with_usdc();
    vault.user_token_balance.save(("usdc".to_string(), "alice".to_string()), u128::MAX);
    vault.user_profit_token.save("alice".to_string(), 10);
    let refused = burn(&mut vault, from("alice"), "usdc".to_string(), 10);
    assert_eq!(refused, Err(ContractError::Overflow {}));
    assert_eq!(balances(&vault, "usdc", "alice"), (u128::MAX, 0, 0, 10));
}

#[test]
fn burn_overflowing_the_unminted_credit_is_refused() {
    let mut vault = vault_with_usdc();
    vault.user_unminted_token.save("alice".to_string(), 1);
    vault.user_profit_token.save("alice".to_string(), u128::MAX);
    let refused = burn(&mut vault, from("alice"), "usdc".to_string(), u128::MAX);
    assert_eq!(refused, Err(ContractError::Overflow {}));
    assert_eq!(balances(&vault, "usdc", "alice"), (0, 1, 0, u128::MAX));
}

#[test]
fn no_request_writes_the_profit_balance() {
    let mut vault = vault_with_usdc();
    vault.user_profit_token.save("alice".to_string(), 44);
    token_deposit(&mut vault, from("usdc"), notice("alice", 50)).unwrap();
    borrow(&mut vault, from("alice"), 20).unwrap();
    repay(&mut vault, from("alice"), 20).unwrap();
    burn(&mut vault, from("alice"), "usdc".to_string(), 40).unwrap();
    token_withdraw(&mut vault, from("alice"), "usdc".to_string(), 1).unwrap();
    list_token_on_leverage(&mut vault, from("creator"), "dai".to_string()).unwrap();
    assert_eq!(profit(&vault, "alice"), 44);
    assert_eq!(profit(&vault, "creator"), 0);
}

#[test]
fn execute_dispatches_every_request() {
    let mut vault = vault_with_usdc();
    execute(
        &mut vault,
        from("creator"),
        ExecuteMsg::ListTokenOnLeverage { token_address: "dai".to_string() },
    )
    .unwrap();
    execute(&mut vault, from("dai"), ExecuteMsg::Receive(notice("alice", 20))).unwrap();
    assert_eq!(balances(&vault, "dai", "alice"), (20, 200, 0, 0));
    execute(&mut vault, from("alice"), ExecuteMsg::Borrow { borrow_amount: 150 }).unwrap();
    assert_eq!(balances(&vault, "dai", "alice"), (20, 50, 150, 0));
    execute(&mut vault, from("alice"), ExecuteMsg::Repay { repay_amount: 150 }).unwrap();
    assert_eq!(balances(&vault, "dai", "alice"), (20, 200, 0, 0));
    let burnt = execute(
        &mut vault,
        from("alice"),
        ExecuteMsg::Burn { token_address: "dai".to_string(), v_token_amount: 1 },
    );
    assert_eq!(burnt, Err(ContractError::InsufficientBalance {}));
    let withdrawn = execute(
        &mut vault,
        from("alice"),
        ExecuteMsg::WithdrawToken { token_address: "dai".to_string(), amount: 20 },
    )
    .unwrap();
    assert_eq!(withdrawn.messages[0].contract_addr, "dai");
    assert_eq!(
        withdrawn.messages[0].msg,
        br#"{"transfer":{"recipient":"alice","amount":"20"}}"#.to_vec()
    );
    assert_eq!(balances(&vault, "dai", "alice"), (0, 0, 0, 0));
}

#[test]
fn query_answers_every_request() {
    let mut vault = vault_with_usdc();
    token_deposit(&mut vault, from("usdc"), notice("alice", 6)).unwrap();
    borrow(&mut vault, from("alice"), 25).unwrap();
    vault.user_profit_token.save("alice".to_string(), 9);

    assert_eq!(
        query(
            &vault,
            QueryMsg::UserTokenBalance {
                token_address: "usdc".to_string(),
                user_address: "alice".to_string(),
            },
        ),
        QueryResponse::UserTokenBalance(
            leverage_contract::msg::GetUserTokenBalanceResponse { usdc_amount: 6 }
        )
    );
    assert_eq!(
        query(&vault, QueryMsg::UserUnmintedTokenBalance { user_address: "alice".to_string() }),
        QueryResponse::UserUnmintedTokenBalance(
            leverage_contract::msg::GetUserUnmintedTokenResponse { vtoken_amount: 35 }
        )
    );
    assert_eq!(
        query(&vault, QueryMsg::UserBorrowTokenBalance { user_address: "alice".to_string() }),
        QueryResponse::UserBorrowTokenBalance(
            leverage_contract::msg::GetUserBorrowTokenResponse { borrrow_vtoken_amount: 25 }
        )
    );
    assert_eq!(
        query(&vault, QueryMsg::UserProfitTokenBalance { user_address: "alice".to_string() }),
        QueryResponse::UserProfitTokenBalance(
            leverage_contract::msg::GetProfitTokenResponse { profit_vtoken_amount: 9 }
        )
    );
    assert_eq!(
        query(&vault, QueryMsg::ListedTokens {}),
        QueryResponse::ListedTokens(leverage_contract::msg::GetListedTokenResponse {
            listed_token: vec!["usdc".to_string()],
        })
    );
    assert_eq!(
        query(&vault, QueryMsg::UserBorrowTokenBalance { user_address: "nobody".to_string() }),
        QueryResponse::UserBorrowTokenBalance(
            leverage_contract::msg::GetUserBorrowTokenResponse { borrrow_vtoken_amount: 0 }
        )
    );
}

#[test]
fn reply_answers_with_an_empty_response() {
    assert_eq!(reply(), Ok(Response { messages: vec![], attributes: vec![] }));
}

#[test]
fn response_builders_append_in_order() {
    let response = Response::new().add_attribute("a", "1").add_attribute("b", "2");
    assert_eq!(response.attributes, vec![attribute("a", "1"), attribute("b", "2")]);
    assert!(response.messages.is_empty());
}
