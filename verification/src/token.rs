//! Settlement on the external token ledger.
//!
//! The token ledger lives outside this crate. A [`CustomTokenClient`] does
//! not reach it: it prepares the one call that the host has to make, a
//! [`TokenCall`] that settles or a [`BalanceQuery`] that reads, and the host
//! makes it. A call that the token ledger refuses undoes the whole operation
//! that asked for it.

use vstd::prelude::*;
use crate::address::Address;

verus! {

/// One settlement on a token ledger. It gives nothing back: it has
/// succeeded when the token ledger has not refused it.
#[derive(Debug, PartialEq, Eq)]
pub enum TokenCall {
    /// Credit `amount` to `to`. The host first makes sure that `authorizer`
    /// has authorized the call.
    Mint { token: Address, to: Address, amount: i128, authorizer: Address },
    /// Debit `amount` from `from`. The host first makes sure that
    /// `authorizer` has authorized the call.
    Burn { token: Address, from: Address, amount: i128, authorizer: Address },
}

/// A settlement as a mathematical value.
pub enum TokenCallView {
    Mint { token: Seq<char>, to: Seq<char>, amount: int, authorizer: Seq<char> },
    Burn { token: Seq<char>, from: Seq<char>, amount: int, authorizer: Seq<char> },
}

/// The question what `user` holds on a token ledger. Nobody has to
/// authorize it, and the answer is the balance.
#[derive(Debug, PartialEq, Eq)]
pub struct BalanceQuery {
    pub token: Address,
    pub user: Address,
}

/// A balance query as a mathematical value.
pub struct BalanceQueryView {
    pub token: Seq<char>,
    pub user: Seq<char>,
}

impl View for BalanceQuery {
    type V = BalanceQueryView;

    open spec fn view(&self) -> BalanceQueryView {
        BalanceQueryView { token: self.token@, user: self.user@ }
    }
}

impl Clone for BalanceQuery {
    fn clone(&self) -> (r: Self)
        ensures
            r == *self,
    {
        BalanceQuery { token: self.token.clone(), user: self.user.clone() }
    }
}

impl View for TokenCall {
    type V = TokenCallView;

    open spec fn view(&self) -> TokenCallView {
        match *self {
            TokenCall::Mint { token, to, amount, authorizer } => TokenCallView::Mint {
                token: token@,
                to: to@,
                amount: amount as int,
                authorizer: authorizer@,
            },
            TokenCall::Burn { token, from, amount, authorizer } => TokenCallView::Burn {
                token: token@,
                from: from@,
                amount: amount as int,
                authorizer: authorizer@,
            },
        }
    }
}

impl Clone for TokenCall {
    fn clone(&self) -> (r: Self)
        ensures
            r == *self,
    {
        match self {
            TokenCall::Mint { token, to, amount, authorizer } => TokenCall::Mint {
                token: token.clone(),
                to: to.clone(),
                amount: *amount,
                authorizer: authorizer.clone(),
            },
            TokenCall::Burn { token, from, amount, authorizer } => TokenCall::Burn {
                token: token.clone(),
                from: from.clone(),
                amount: *amount,
                authorizer: authorizer.clone(),
            },
        }
    }
}

/// Prepares calls to one token ledger.
#[derive(Debug)]
pub struct CustomTokenClient {
    contract_id: Address,
}

impl View for CustomTokenClient {
    type V = Seq<char>;

    /// The token ledger that the client speaks to.
    closed spec fn view(&self) -> Seq<char> {
        self.contract_id@
    }
}

impl CustomTokenClient {
    /// A client for the token ledger at `contract_id`.
    pub fn new(contract_id: &Address) -> (r: CustomTokenClient)
        ensures
            r@ == contract_id@,
    {
        CustomTokenClient { contract_id: contract_id.clone() }
    }

    /// The call that credits `amount` to `to` on the authority of
    /// `auth_source`.
    pub fn mint(&self, to: &Address, amount: i128, auth_source: &Address) -> (r: TokenCall)
        ensures
            r@ == (TokenCallView::Mint {
                token: self@,
                to: to@,
                amount: amount as int,
                authorizer: auth_source@,
            }),
    {
        TokenCall::Mint {
            token: self.contract_id.clone(),
            to: to.clone(),
            amount,
            authorizer: auth_source.clone(),
        }
    }

    /// The query for the balance of `user`.
    pub fn read_balance(&self, user: &Address) -> (r: BalanceQuery)
        ensures
            r@ == (BalanceQueryView { token: self@, user: user@ }),
    {
        BalanceQuery { token: self.contract_id.clone(), user: user.clone() }
    }

    /// The call that debits `amount` from `from` on the authority of
    /// `auth_source`.
    pub fn burn(&self, from: &Address, amount: i128, auth_source: &Address) -> (r: TokenCall)
        ensures
            r@ == (TokenCallView::Burn {
                token: self@,
                from: from@,
                amount: amount as int,
                authorizer: auth_source@,
            }),
    {
        TokenCall::Burn {
            token: self.contract_id.clone(),
            from: from.clone(),
            amount,
            authorizer: auth_source.clone(),
        }
    }
}

} // verus!
