//! What holds of the rules whatever the requests are.

use vstd::prelude::*;
use crate::error::ContractError;
use crate::model::{after, after_all, apply, burn, deposit, initialize, withdraw, Request, VaultView};
use crate::table::balance_of;

verus! {

/// No request takes a balance out of its range: where every balance lies
/// between zero and the largest 128-bit value, it still does after the
/// request, whether the request succeeds or fails.
pub proof fn lemma_balances_stay_in_range(s: VaultView, request: Request)
    requires
        s.balances_fit(),
    ensures
        after(s, request).balances_fit(),
{
}

/// No sequence of requests takes a balance out of its range; in particular no
/// balance is negative after any of them.
pub proof fn lemma_balances_never_leave_range(s: VaultView, requests: Seq<Request>)
    requires
        s.balances_fit(),
    ensures
        after_all(s, requests).balances_fit(),
        forall|token: Seq<char>, user: Seq<char>|
            0 <= #[trigger] balance_of(after_all(s, requests).token_balance, (token, user)),
        forall|user: Seq<char>| 0 <= #[trigger] balance_of(after_all(s, requests).unminted, user),
        forall|user: Seq<char>| 0 <= #[trigger] balance_of(after_all(s, requests).borrow, user),
        forall|user: Seq<char>| 0 <= #[trigger] balance_of(after_all(s, requests).profit, user),
    decreases requests.len(),
{
    if requests.len() > 0 {
        lemma_balances_never_leave_range(s, requests.drop_last());
        lemma_balances_stay_in_range(after_all(s, requests.drop_last()), requests.last());
    }
}

/// A deposit followed by the withdrawal of the same amount undoes itself:
/// where the user owes no borrow and the deposit succeeds, the withdrawal
/// succeeds too, and the user's balance of the token and unminted credit are
/// what they were before the deposit.
pub proof fn lemma_deposit_then_withdraw_restores(
    s: VaultView,
    token: Seq<char>,
    user: Seq<char>,
    amount: u128,
)
    requires
        s.balances_fit(),
        balance_of(s.borrow, user) == 0,
        deposit(s, token, user, amount as int) is Ok,
    ensures
        ({
            let deposited = deposit(s, token, user, amount as int)->Ok_0;
            let withdrawn = withdraw(deposited, user, token, amount as int);
            &&& withdrawn is Ok
            &&& balance_of(withdrawn->Ok_0.token_balance, (token, user)) == balance_of(
                s.token_balance,
                (token, user),
            )
            &&& balance_of(withdrawn->Ok_0.unminted, user) == balance_of(s.unminted, user)
        }),
{
}

/// No request writes a profit balance, takes a token off the list or changes
/// the owner: after any sequence of requests the profit table and the owner
/// are what they were, and every token that was accepted still is.
pub proof fn lemma_requests_keep_profit_owner_and_listing(s: VaultView, requests: Seq<Request>)
    ensures
        after_all(s, requests).profit == s.profit,
        after_all(s, requests).owner == s.owner,
        s.listed_token.is_prefix_of(after_all(s, requests).listed_token),
        forall|token: Seq<char>|
            s.is_registered(token) ==> #[trigger] after_all(s, requests).is_registered(token),
    decreases requests.len(),
{
    if requests.len() > 0 {
        let before = after_all(s, requests.drop_last());
        lemma_requests_keep_profit_owner_and_listing(s, requests.drop_last());
        assert(before.listed_token.is_prefix_of(after(before, requests.last()).listed_token));
        assert forall|token: Seq<char>| s.is_registered(token) implies #[trigger] after_all(
            s,
            requests,
        ).is_registered(token) by {
            let i = choose|i: int| 0 <= i < s.listed_token.len() && s.listed_token[i] == token;
            assert(after_all(s, requests).listed_token[i] == token);
        }
    }
}

/// A burn that the profit balance does not cover fails: for want of funds
/// where the caller owes no borrow, and for the borrow where the caller owes
/// one.
pub proof fn lemma_burn_needs_profit(
    s: VaultView,
    caller: Seq<char>,
    token: Seq<char>,
    amount: u128,
)
    requires
        balance_of(s.profit, caller) < amount,
    ensures
        burn(s, caller, token, amount as int) == Err::<VaultView, ContractError>(
            if balance_of(s.borrow, caller) > 0 {
                ContractError::PayBorrowAmount {  }
            } else {
                ContractError::InsufficientBalance {  }
            },
        ),
{
}

/// In a vault that has seen nothing but requests since it was created, no
/// profit was ever credited, and a burn of any positive amount fails.
pub proof fn lemma_burn_fails_without_profit_credit(
    owner: Seq<char>,
    first_token: Seq<char>,
    requests: Seq<Request>,
    caller: Seq<char>,
    token: Seq<char>,
    amount: u128,
)
    requires
        amount > 0,
    ensures
        ({
            let s = after_all(initialize(owner, first_token), requests);
            &&& balance_of(s.profit, caller) == 0
            &&& apply(s, Request::Burn { caller, token, amount }) is Err
            &&& balance_of(s.borrow, caller) == 0 ==> apply(s, Request::Burn { caller, token, amount })
                == Err::<VaultView, ContractError>(ContractError::InsufficientBalance {  })
        }),
{
    let s = after_all(initialize(owner, first_token), requests);
    lemma_requests_keep_profit_owner_and_listing(initialize(owner, first_token), requests);
    lemma_burn_needs_profit(s, caller, token, amount);
}

/// A request changes no rows but its own: the unminted credit and the borrow
/// balance of every other user, and every token balance but the one of the
/// request's own token and user, read as before.
pub proof fn lemma_request_changes_only_its_own_rows(
    s: VaultView,
    request: Request,
    token: Seq<char>,
    user: Seq<char>,
)
    ensures
        user != request.user() ==> {
            &&& balance_of(after(s, request).unminted, user) == balance_of(s.unminted, user)
            &&& balance_of(after(s, request).borrow, user) == balance_of(s.borrow, user)
        },
        user != request.user() || request.token() != Some(token) ==> balance_of(
            after(s, request).token_balance,
            (token, user),
        ) == balance_of(s.token_balance, (token, user)),
{
}

/// Two states show the same to `request`: the same owner and accepted tokens,
/// and the same balances in the rows of the request's own user and token.
pub open spec fn same_rows_for(s1: VaultView, s2: VaultView, request: Request) -> bool {
    let user = request.user();
    &&& s1.owner == s2.owner
    &&& s1.listed_token == s2.listed_token
    &&& balance_of(s1.unminted, user) == balance_of(s2.unminted, user)
    &&& balance_of(s1.borrow, user) == balance_of(s2.borrow, user)
    &&& balance_of(s1.profit, user) == balance_of(s2.profit, user)
    &&& request.token() matches Some(token) ==> balance_of(s1.token_balance, (token, user))
        == balance_of(s2.token_balance, (token, user))
}

/// A request reads no rows but its own: in two states that show the same to
/// it, it meets the same failure or succeeds in both, and then the two next
/// states show the same to it as well. A store may therefore hand the rules
/// the rows of one user and one token at a time.
pub proof fn lemma_request_reads_only_its_own_rows(s1: VaultView, s2: VaultView, request: Request)
    requires
        same_rows_for(s1, s2, request),
    ensures
        match apply(s1, request) {
            Ok(next1) => apply(s2, request) is Ok && same_rows_for(
                next1,
                apply(s2, request)->Ok_0,
                request,
            ),
            Err(e) => apply(s2, request) == Err::<VaultView, ContractError>(e),
        },
{
}

} // verus!
