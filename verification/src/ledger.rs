//! The ledger as a mathematical value, and what each operation does to it.
//!
//! Every operation of a [`crate::YieldDistributor`] is specified by the
//! function of the same name here: it gives, for a ledger and the
//! operation's arguments, either the reason for which the operation is
//! refused or what it yields. A refused operation leaves the ledger as it
//! was.

use vstd::prelude::*;
use crate::error::YieldError;
use crate::strategy::{StrategyStatus, StrategyView, MATURITY_WINDOW};
use crate::token::{BalanceQueryView, TokenCallView};

verus! {

/// The state of a yield distributor.
pub struct Ledger {
    /// The administrator, once set.
    pub admin: Option<Seq<char>>,
    /// The yearly percentage for new strategies, in hundredths of a percent,
    /// once set.
    pub pct: Option<int>,
    /// The token ledger on which new strategies settle, once set.
    pub token: Option<Seq<char>>,
    /// The strategy of each owner that has one.
    pub strategies: Map<Seq<char>, StrategyView>,
}

/// The least percentage that can be configured: 0.01%, in hundredths of a
/// percent.
pub const MIN_PCT: i128 = 1;

/// The greatest percentage that can be configured: 100.00%, in hundredths of
/// a percent.
pub const MAX_PCT: i128 = 10000;

/// Whether `pct` is a percentage that can be configured: between 0.01% and
/// 100.00%, in hundredths of a percent.
pub open spec fn valid_pct(pct: int) -> bool {
    MIN_PCT <= pct <= MAX_PCT
}

/// Whether `pct` is a percentage that can be configured.
pub fn is_valid_pct(pct: i128) -> (r: bool)
    ensures
        r == valid_pct(pct as int),
{
    MIN_PCT <= pct && pct <= MAX_PCT
}

impl Ledger {
    /// The ledger on which nothing is set and nothing is on record.
    pub open spec fn empty() -> Ledger {
        Ledger { admin: None, pct: None, token: None, strategies: Map::empty() }
    }

    /// Whether the ledger is in order: the percentage, if set, can be
    /// configured, and every strategy is filed under its own owner.
    pub open spec fn wf(self) -> bool {
        &&& self.pct matches Some(p) ==> valid_pct(p)
        &&& forall|user: Seq<char>| #[trigger]
            self.strategies.contains_key(user) ==> self.strategies[user].user == user
    }

    /// This ledger with `strategy` on record for `user`.
    pub open spec fn with_strategy(self, user: Seq<char>, strategy: StrategyView) -> Ledger {
        Ledger { strategies: self.strategies.insert(user, strategy), ..self }
    }

    /// The guard of every privileged operation: the administrator, if one is
    /// set and `caller` is that identity.
    pub open spec fn require_admin(self, caller: Seq<char>) -> Result<Seq<char>, YieldError> {
        match self.admin {
            None => Err(YieldError::NotInitialized),
            Some(admin) => if admin == caller {
                Ok(admin)
            } else {
                Err(YieldError::Unauthorized)
            },
        }
    }

    /// Makes `admin` the administrator. This happens once: it is refused
    /// when an administrator is set, and otherwise when `caller` is not the
    /// proposed administrator.
    pub open spec fn initialize(
        self,
        caller: Seq<char>,
        admin: Seq<char>,
    ) -> Result<Ledger, YieldError> {
        if self.admin is Some {
            Err(YieldError::AlreadyInitialized)
        } else if caller != admin {
            Err(YieldError::Unauthorized)
        } else {
            Ok(Ledger { admin: Some(admin), ..self })
        }
    }

    /// The administrator, once set.
    pub open spec fn get_admin(self) -> Result<Seq<char>, YieldError> {
        match self.admin {
            Some(admin) => Ok(admin),
            None => Err(YieldError::NotInitialized),
        }
    }

    /// Sets the percentage for strategies opened from now on.
    pub open spec fn set_pct(self, caller: Seq<char>, pct: int) -> Result<Ledger, YieldError> {
        match self.require_admin(caller) {
            Err(e) => Err(e),
            Ok(_) => if !valid_pct(pct) {
                Err(YieldError::InvalidPercentage)
            } else {
                Ok(Ledger { pct: Some(pct), ..self })
            },
        }
    }

    /// The percentage for new strategies, once set.
    pub open spec fn get_pct(self) -> Result<int, YieldError> {
        match self.pct {
            Some(pct) => Ok(pct),
            None => Err(YieldError::NotInitialized),
        }
    }

    /// Sets the token ledger for strategies opened from now on.
    pub open spec fn set_token(
        self,
        caller: Seq<char>,
        token: Seq<char>,
    ) -> Result<Ledger, YieldError> {
        match self.require_admin(caller) {
            Err(e) => Err(e),
            Ok(_) => {
                Ok(Ledger { token: Some(token), ..self })
            },
        }
    }

    /// The token ledger for new strategies, once set.
    pub open spec fn get_token(self) -> Result<Seq<char>, YieldError> {
        match self.token {
            Some(token) => Ok(token),
            None => Err(YieldError::NotInitialized),
        }
    }

    /// Opens a strategy for `user` at time `now`, with the percentage and
    /// the token ledger that are configured. A strategy that `user` already
    /// has is replaced.
    pub open spec fn set_strat(
        self,
        caller: Seq<char>,
        user: Seq<char>,
        amount: int,
        now: nat,
    ) -> Result<Ledger, YieldError> {
        match self.require_admin(caller) {
            Err(e) => Err(e),
            Ok(_) => if self.pct is None || self.token is None {
                Err(YieldError::NotInitialized)
            } else if now + MATURITY_WINDOW > u64::MAX {
                Err(YieldError::Overflow)
            } else {
                Ok(
                    self.with_strategy(
                        user,
                        StrategyView::opened(user, amount, self.pct->0, self.token->0, now),
                    ),
                )
            },
        }
    }

    /// The strategy of `user`.
    pub open spec fn get_strat(self, user: Seq<char>) -> Result<StrategyView, YieldError> {
        if self.strategies.contains_key(user) {
            Ok(self.strategies[user])
        } else {
            Err(YieldError::NotInitialized)
        }
    }

    /// Lets the active strategy of `user` expire: the strategy becomes
    /// `Expired`, and one month's yield is to be minted to `user`.
    pub open spec fn set_s_exp(
        self,
        caller: Seq<char>,
        user: Seq<char>,
    ) -> Result<(Ledger, TokenCallView), YieldError> {
        match self.require_admin(caller) {
            Err(e) => Err(e),
            Ok(_) => if !self.strategies.contains_key(user) {
                Err(YieldError::NotInitialized)
            } else {
                let strategy = self.strategies[user];
                if strategy.status != StrategyStatus::Active {
                    Err(YieldError::InvalidStatus)
                } else if !(i128::MIN <= strategy.yield_due() <= i128::MAX) {
                    Err(YieldError::Overflow)
                } else {
                    Ok(
                        (
                            self.with_strategy(user, strategy.with_status(StrategyStatus::Expired)),
                            TokenCallView::Mint {
                                token: strategy.token,
                                to: user,
                                amount: strategy.yield_due(),
                                authorizer: self.admin->0,
                            },
                        ),
                    )
                }
            },
        }
    }

    /// Completes the expired strategy of `user`.
    pub open spec fn set_s_cmp(
        self,
        caller: Seq<char>,
        user: Seq<char>,
    ) -> Result<Ledger, YieldError> {
        match self.require_admin(caller) {
            Err(e) => Err(e),
            Ok(_) => if !self.strategies.contains_key(user) {
                Err(YieldError::NotInitialized)
            } else {
                let strategy = self.strategies[user];
                if strategy.status != StrategyStatus::Expired {
                    Err(YieldError::InvalidStatus)
                } else {
                    Ok(self.with_strategy(user, strategy.with_status(StrategyStatus::Completed)))
                }
            },
        }
    }

    /// The call that mints `amount` to `to` on the token ledger of the
    /// strategy of `to`, on the administrator's authority.
    pub open spec fn set_apy(self, to: Seq<char>, amount: int) -> Result<TokenCallView, YieldError> {
        if self.admin is None || !self.strategies.contains_key(to) {
            Err(YieldError::NotInitialized)
        } else {
            Ok(
                TokenCallView::Mint {
                    token: self.strategies[to].token,
                    to,
                    amount,
                    authorizer: self.admin->0,
                },
            )
        }
    }

    /// The query for what `user` holds on the token ledger of the strategy
    /// of `user`.
    pub open spec fn get_apy(self, user: Seq<char>) -> Result<BalanceQueryView, YieldError> {
        if !self.strategies.contains_key(user) {
            Err(YieldError::NotInitialized)
        } else {
            Ok(BalanceQueryView { token: self.strategies[user].token, user })
        }
    }

    /// Accrues `amount` of yield to `user`, who must have a strategy.
    pub open spec fn accrue(
        self,
        caller: Seq<char>,
        user: Seq<char>,
        amount: int,
    ) -> Result<TokenCallView, YieldError> {
        match self.require_admin(caller) {
            Err(e) => Err(e),
            Ok(_) => if !self.strategies.contains_key(user) {
                Err(YieldError::InvalidStrategy)
            } else {
                self.set_apy(user, amount)
            },
        }
    }

    /// The first half of a withdrawal: whether `user` may withdraw at all,
    /// and if so the query for the balance to withdraw from.
    pub open spec fn begin_withdraw(
        self,
        caller: Seq<char>,
        user: Seq<char>,
    ) -> Result<BalanceQueryView, YieldError> {
        match self.require_admin(caller) {
            Err(e) => Err(e),
            Ok(_) => if !self.strategies.contains_key(user) {
                Err(YieldError::NotInitialized)
            } else if self.strategies[user].status != StrategyStatus::Completed {
                Err(YieldError::InvalidStatus)
            } else {
                Ok(BalanceQueryView { token: self.strategies[user].token, user })
            },
        }
    }

    /// A withdrawal of `amount` by `user`, whose balance on the token ledger
    /// is `balance`: the balance must exceed the amount, which is then to be
    /// burned.
    pub open spec fn withdraw(
        self,
        caller: Seq<char>,
        amount: int,
        user: Seq<char>,
        balance: int,
    ) -> Result<TokenCallView, YieldError> {
        match self.begin_withdraw(caller, user) {
            Err(e) => Err(e),
            Ok(_) => if balance <= amount {
                Err(YieldError::NotEnoughBalance)
            } else {
                Ok(
                    TokenCallView::Burn {
                        token: self.strategies[user].token,
                        from: user,
                        amount,
                        authorizer: self.admin->0,
                    },
                )
            },
        }
    }
}

} // verus!
