//! Strategies: one owner's deposit and where it stands in its life.

use vstd::prelude::*;
use crate::address::Address;

verus! {

/// The time between the opening of a strategy and its maturity: thirty days
/// in seconds.
pub const MATURITY_WINDOW: u64 = 2592000;

/// The months of a year, over which a yearly percentage is spread.
pub const MONTHS: i128 = 12;

/// Where a strategy stands. A strategy only moves forward:
/// `Active`, then `Expired`, then `Completed`.
#[derive(Clone, Copy, Debug, PartialEq, Eq, Structural)]
pub enum StrategyStatus {
    Active,
    Expired,
    Completed,
}

/// One owner's deposit.
#[derive(Debug, PartialEq, Eq)]
pub struct Strategy {
    /// The owner.
    pub user: Address,
    /// The principal deposited.
    pub amount: i128,
    /// The yearly percentage, in hundredths of a percent, in force when the
    /// strategy was opened.
    pub pct: i128,
    /// The token ledger on which the strategy settles, as configured when the
    /// strategy was opened.
    pub token: Address,
    /// When the strategy was opened.
    pub created_at: u64,
    /// When the strategy matures.
    pub expires_at: u64,
    /// Where the strategy stands.
    pub status: StrategyStatus,
}

/// A strategy as a mathematical value.
pub struct StrategyView {
    pub user: Seq<char>,
    pub amount: int,
    pub pct: int,
    pub token: Seq<char>,
    pub created_at: nat,
    pub expires_at: nat,
    pub status: StrategyStatus,
}

impl View for Strategy {
    type V = StrategyView;

    open spec fn view(&self) -> StrategyView {
        StrategyView {
            user: self.user@,
            amount: self.amount as int,
            pct: self.pct as int,
            token: self.token@,
            created_at: self.created_at as nat,
            expires_at: self.expires_at as nat,
            status: self.status,
        }
    }
}

impl Clone for Strategy {
    fn clone(&self) -> (r: Self)
        ensures
            r == *self,
    {
        Strategy {
            user: self.user.clone(),
            amount: self.amount,
            pct: self.pct,
            token: self.token.clone(),
            created_at: self.created_at,
            expires_at: self.expires_at,
            status: self.status,
        }
    }
}

/// One month's share of a yearly percentage: a twelfth, rounded toward zero.
pub open spec fn monthly_rate(pct: int) -> int {
    if pct >= 0 {
        pct / (MONTHS as int)
    } else {
        -((-pct) / (MONTHS as int))
    }
}

/// The yield that a principal earns in one month at a yearly percentage.
/// The rate is rounded toward zero before it is applied.
pub open spec fn monthly_yield(amount: int, pct: int) -> int {
    amount * monthly_rate(pct)
}

impl StrategyView {
    /// The strategy that is opened for `user` at time `now`.
    pub open spec fn opened(
        user: Seq<char>,
        amount: int,
        pct: int,
        token: Seq<char>,
        now: nat,
    ) -> StrategyView {
        StrategyView {
            user,
            amount,
            pct,
            token,
            created_at: now,
            expires_at: now + MATURITY_WINDOW as nat,
            status: StrategyStatus::Active,
        }
    }

    /// This strategy with another status and nothing else changed.
    pub open spec fn with_status(self, status: StrategyStatus) -> StrategyView {
        StrategyView { status, ..self }
    }

    /// The yield that falls due when this strategy expires.
    pub open spec fn yield_due(self) -> int {
        monthly_yield(self.amount, self.pct)
    }
}

impl Strategy {
    /// Opens a strategy for `user` at time `now`, or returns `None` when the
    /// maturity time does not fit in 64 bits.
    pub fn open(
        user: Address,
        amount: i128,
        pct: i128,
        token: Address,
        now: u64,
    ) -> (r: Option<Strategy>)
        ensures
            r is Some <==> now + MATURITY_WINDOW <= u64::MAX,
            r matches Some(s) ==> s@ == StrategyView::opened(
                user@,
                amount as int,
                pct as int,
                token@,
                now as nat,
            ),
    {
        match now.checked_add(MATURITY_WINDOW) {
            Some(expires_at) => Some(
                Strategy {
                    user,
                    amount,
                    pct,
                    token,
                    created_at: now,
                    expires_at,
                    status: StrategyStatus::Active,
                },
            ),
            None => None,
        }
    }

    /// This strategy with another status and nothing else changed.
    pub fn with_status(self, status: StrategyStatus) -> (r: Strategy)
        ensures
            r@ == self@.with_status(status),
    {
        Strategy {
            user: self.user,
            amount: self.amount,
            pct: self.pct,
            token: self.token,
            created_at: self.created_at,
            expires_at: self.expires_at,
            status,
        }
    }

    /// The yield that falls due when this strategy expires: the principal
    /// times a twelfth of the yearly percentage, the twelfth rounded toward
    /// zero. Returns `None` when the product does not fit in 128 bits.
    pub fn yield_due(&self) -> (r: Option<i128>)
        ensures
            r is Some <==> i128::MIN <= self@.yield_due() <= i128::MAX,
            r matches Some(y) ==> y == self@.yield_due(),
    {
        let rate: i128 = self.pct / MONTHS;
        self.amount.checked_mul(rate)
    }
}

} // verus!
