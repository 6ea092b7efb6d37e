//! The vault as a mathematical object, and the rules of its operations.
//!
//! A state is the owner, the list of accepted tokens and four balance tables.
//! Each rule maps a state and a request to the state that follows, or to the
//! failure that the request meets; a request that fails has no next state.
//! Amounts are integers here, and the rules say where the 128-bit range of a
//! stored balance would be left.

use vstd::prelude::*;
use crate::error::ContractError;
use crate::table::{amounts_fit, balance_of};
use crate::RATE;

verus! {

/// The state of a vault.
pub struct VaultView {
    /// Who may extend the list of accepted tokens.
    pub owner: Seq<char>,
    /// The accepted tokens, in the order in which they were listed.
    pub listed_token: Seq<Seq<char>>,
    /// By token and user: the amount of the token held for the user.
    pub token_balance: Map<(Seq<char>, Seq<char>), int>,
    /// By user: the credit that the user can still borrow against or redeem.
    pub unminted: Map<Seq<char>, int>,
    /// By user: the credit that the user has borrowed.
    pub borrow: Map<Seq<char>, int>,
    /// By user: the profit credited to the user.
    pub profit: Map<Seq<char>, int>,
}

impl VaultView {
    /// Every balance lies between zero and the largest 128-bit value.
    pub open spec fn balances_fit(self) -> bool {
        &&& amounts_fit(self.token_balance)
        &&& amounts_fit(self.unminted)
        &&& amounts_fit(self.borrow)
        &&& amounts_fit(self.profit)
    }

    /// The token is on the list of accepted tokens.
    pub open spec fn is_registered(self, token: Seq<char>) -> bool {
        self.listed_token.contains(token)
    }
}

/// The credit that corresponds to `amount` of a token: `RATE` units each, or
/// nothing at all where that product leaves the 128-bit range.
pub open spec fn credit_for(amount: int) -> int {
    if amount * RATE <= u128::MAX {
        amount * RATE
    } else {
        0
    }
}

/// The state at creation: `owner` owns the vault, `token` is accepted and no
/// balance has a row.
pub open spec fn initialize(owner: Seq<char>, token: Seq<char>) -> VaultView {
    VaultView {
        owner,
        listed_token: seq![token],
        token_balance: Map::empty(),
        unminted: Map::empty(),
        borrow: Map::empty(),
        profit: Map::empty(),
    }
}

/// `caller` adds `token` to the accepted tokens. Only the owner may; a token
/// that is listed already is listed once more.
pub open spec fn register_token(s: VaultView, caller: Seq<char>, token: Seq<char>) -> Result<
    VaultView,
    ContractError,
> {
    if caller != s.owner {
        Err(ContractError::Unauthorized {  })
    } else {
        Ok(VaultView { listed_token: s.listed_token.push(token), ..s })
    }
}

/// The contract of `token` reports that `user` handed it `amount`.
pub open spec fn deposit(s: VaultView, token: Seq<char>, user: Seq<char>, amount: int) -> Result<
    VaultView,
    ContractError,
> {
    let held = balance_of(s.token_balance, (token, user));
    let credit = balance_of(s.unminted, user);
    if !s.is_registered(token) {
        Err(ContractError::UnauthorizedToken {  })
    } else if held + amount > u128::MAX {
        Err(ContractError::OverflowBalance {  })
    } else if credit + credit_for(amount) > u128::MAX {
        Err(ContractError::OverflowBalance {  })
    } else {
        Ok(
            VaultView {
                token_balance: s.token_balance.insert((token, user), held + amount),
                unminted: s.unminted.insert(user, credit + credit_for(amount)),
                ..s
            },
        )
    }
}

/// `caller` takes `amount` of `token` out of the vault.
pub open spec fn withdraw(s: VaultView, caller: Seq<char>, token: Seq<char>, amount: int) -> Result<
    VaultView,
    ContractError,
> {
    let held = balance_of(s.token_balance, (token, caller));
    let credit = balance_of(s.unminted, caller);
    if balance_of(s.borrow, caller) > 0 {
        Err(ContractError::BorrowAmountIsNotZero {  })
    } else if held < amount {
        Err(ContractError::InsufficientBalance {  })
    } else if credit < credit_for(amount) {
        Err(ContractError::Overflow {  })
    } else {
        Ok(
            VaultView {
                token_balance: s.token_balance.insert((token, caller), held - amount),
                unminted: s.unminted.insert(caller, credit - credit_for(amount)),
                ..s
            },
        )
    }
}

/// `caller` borrows `amount` against the unminted credit.
pub open spec fn borrow(s: VaultView, caller: Seq<char>, amount: int) -> Result<
    VaultView,
    ContractError,
> {
    let credit = balance_of(s.unminted, caller);
    let owed = balance_of(s.borrow, caller);
    if credit < amount {
        Err(ContractError::InsufficientUnmintedToken {  })
    } else if owed + amount > u128::MAX {
        Err(ContractError::Overflow {  })
    } else {
        Ok(
            VaultView {
                unminted: s.unminted.insert(caller, credit - amount),
                borrow: s.borrow.insert(caller, owed + amount),
                ..s
            },
        )
    }
}

/// `caller` pays back `amount` of what was borrowed.
pub open spec fn repay(s: VaultView, caller: Seq<char>, amount: int) -> Result<
    VaultView,
    ContractError,
> {
    let credit = balance_of(s.unminted, caller);
    let owed = balance_of(s.borrow, caller);
    if owed < amount {
        Err(ContractError::RepayOverflow {  })
    } else if credit + amount > u128::MAX {
        Err(ContractError::InsufficientBalance {  })
    } else {
        Ok(
            VaultView {
                borrow: s.borrow.insert(caller, owed - amount),
                unminted: s.unminted.insert(caller, credit + amount),
                ..s
            },
        )
    }
}

/// `caller` burns `amount` of credit, covered by the profit balance, for
/// `token`. The profit balance itself stays as it is.
pub open spec fn burn(s: VaultView, caller: Seq<char>, token: Seq<char>, amount: int) -> Result<
    VaultView,
    ContractError,
> {
    let held = balance_of(s.token_balance, (token, caller));
    let credit = balance_of(s.unminted, caller);
    if balance_of(s.borrow, caller) > 0 {
        Err(ContractError::PayBorrowAmount {  })
    } else if balance_of(s.profit, caller) < amount {
        Err(ContractError::InsufficientBalance {  })
    } else if held + amount / (RATE as int) > u128::MAX {
        Err(ContractError::Overflow {  })
    } else if credit + amount > u128::MAX {
        Err(ContractError::Overflow {  })
    } else {
        Ok(
            VaultView {
                token_balance: s.token_balance.insert((token, caller), held + amount / (RATE as int)),
                unminted: s.unminted.insert(caller, credit + amount),
                ..s
            },
        )
    }
}

/// A request that may change the vault, with the principal it comes from.
pub enum Request {
    RegisterToken { caller: Seq<char>, token: Seq<char> },
    Deposit { token: Seq<char>, user: Seq<char>, amount: u128 },
    Withdraw { caller: Seq<char>, token: Seq<char>, amount: u128 },
    Borrow { caller: Seq<char>, amount: u128 },
    Repay { caller: Seq<char>, amount: u128 },
    Burn { caller: Seq<char>, token: Seq<char>, amount: u128 },
}

impl Request {
    /// The user whose balances the request reads and writes. A registration
    /// touches no balance; its user is the caller.
    pub open spec fn user(self) -> Seq<char> {
        match self {
            Request::RegisterToken { caller, .. } => caller,
            Request::Deposit { user, .. } => user,
            Request::Withdraw { caller, .. } => caller,
            Request::Borrow { caller, .. } => caller,
            Request::Repay { caller, .. } => caller,
            Request::Burn { caller, .. } => caller,
        }
    }

    /// The token whose balance the request reads and writes, if it touches
    /// one.
    pub open spec fn token(self) -> Option<Seq<char>> {
        match self {
            Request::Deposit { token, .. } => Some(token),
            Request::Withdraw { token, .. } => Some(token),
            Request::Burn { token, .. } => Some(token),
            _ => None,
        }
    }
}

/// The rule of `request`, applied to `s`.
pub open spec fn apply(s: VaultView, request: Request) -> Result<VaultView, ContractError> {
    match request {
        Request::RegisterToken { caller, token } => register_token(s, caller, token),
        Request::Deposit { token, user, amount } => deposit(s, token, user, amount as int),
        Request::Withdraw { caller, token, amount } => withdraw(s, caller, token, amount as int),
        Request::Borrow { caller, amount } => borrow(s, caller, amount as int),
        Request::Repay { caller, amount } => repay(s, caller, amount as int),
        Request::Burn { caller, token, amount } => burn(s, caller, token, amount as int),
    }
}

/// The state in which `request` leaves `s`: the next state where the request
/// succeeds, and `s` itself where it fails.
pub open spec fn after(s: VaultView, request: Request) -> VaultView {
    match apply(s, request) {
        Ok(next) => next,
        Err(_) => s,
    }
}

/// The state in which `requests`, made in turn, leave `s`.
pub open spec fn after_all(s: VaultView, requests: Seq<Request>) -> VaultView
    decreases requests.len(),
{
    if requests.len() == 0 {
        s
    } else {
        after(after_all(s, requests.drop_last()), requests.last())
    }
}

} // verus!
