//! The state that a vault keeps between requests.

use vstd::prelude::*;
use crate::model::VaultView;
use crate::table::Table;

verus! {

/// The names that a list of tokens stands for.
pub open spec fn token_names(tokens: Seq<String>) -> Seq<Seq<char>> {
    Seq::new(tokens.len(), |i: int| tokens[i]@)
}

/// A vault: its owner, the tokens it accepts and the balances it keeps.
pub struct Vault {
    /// Who may extend the list of accepted tokens.
    pub leverage_contract_owner: String,
    /// The accepted tokens.
    pub listed_token: Vec<String>,
    /// By token and user: the amount of the token held for the user.
    pub user_token_balance: Table<(String, String)>,
    /// By user: the credit that the user can still borrow against or redeem.
    pub user_unminted_token: Table<String>,
    /// By user: the credit that the user has borrowed.
    pub user_borrow_balance: Table<String>,
    /// By user: the profit credited to the user. No request writes it; it is
    /// filled from outside, through the table's own `save`.
    pub user_profit_token: Table<String>,
}

impl View for Vault {
    type V = VaultView;

    open spec fn view(&self) -> VaultView {
        VaultView {
            owner: self.leverage_contract_owner@,
            listed_token: token_names(self.listed_token@),
            token_balance: self.user_token_balance@,
            unminted: self.user_unminted_token@,
            borrow: self.user_borrow_balance@,
            profit: self.user_profit_token@,
        }
    }
}

impl Vault {
    /// Every balance that a vault keeps fits in 128 bits.
    pub proof fn lemma_balances_fit(&self)
        ensures
            self@.balances_fit(),
    {
        self.user_token_balance.lemma_amounts_fit();
        self.user_unminted_token.lemma_amounts_fit();
        self.user_borrow_balance.lemma_amounts_fit();
        self.user_profit_token.lemma_amounts_fit();
    }

    /// A vault of `owner` that accepts `listed_token` and holds no balance.
    pub fn new(owner: String, listed_token: Vec<String>) -> (vault: Self)
        ensures
            vault@ == (VaultView {
                owner: owner@,
                listed_token: token_names(listed_token@),
                token_balance: Map::empty(),
                unminted: Map::empty(),
                borrow: Map::empty(),
                profit: Map::empty(),
            }),
    {
        Vault {
            leverage_contract_owner: owner,
            listed_token,
            user_token_balance: Table::new(),
            user_unminted_token: Table::new(),
            user_borrow_balance: Table::new(),
            user_profit_token: Table::new(),
        }
    }

    /// Tells whether `token` is on the list of accepted tokens.
    pub fn is_registered(&self, token: &String) -> (listed: bool)
        ensures
            listed == self@.is_registered(token@),
    {
        let mut i: usize = 0;
        while i < self.listed_token.len()
            invariant
                i <= self.listed_token@.len(),
                forall|j: int| 0 <= j < i ==> self.listed_token@[j]@ != token@,
            decreases self.listed_token@.len() - i,
        {
            if self.listed_token[i] == *token {
                assert(token_names(self.listed_token@)[i as int] == token@);
                return true;
            }
            i += 1;
        }
        false
    }
}

} // verus!
