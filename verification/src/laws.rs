//! What holds of the ledger whatever is done to it.
//!
//! The laws are stated over [`Ledger`], by which every operation of a
//! [`crate::YieldDistributor`] is specified, so they hold of every
//! distributor.

use vstd::prelude::*;
use crate::error::YieldError;
use crate::ledger::{valid_pct, Ledger};
use crate::strategy::{monthly_rate, StrategyStatus, StrategyView, MATURITY_WINDOW};
use crate::token::TokenCallView;

verus! {

/// A percentage outside `1..=10000` is never set: setting it is refused,
/// and refused with `InvalidPercentage` when the administrator asks.
pub proof fn law_invalid_pct_refused(ledger: Ledger, caller: Seq<char>, pct: int)
    requires
        !valid_pct(pct),
    ensures
        ledger.set_pct(caller, pct) is Err,
        ledger.admin == Some(caller) ==> ledger.set_pct(caller, pct) == Err::<Ledger, _>(
            YieldError::InvalidPercentage,
        ),
{
}

/// A strategy that has just been opened is read back as it was opened:
/// for its owner, active, with the amount given and the percentage and token
/// ledger configured at that time, and maturing one maturity window after
/// its creation.
pub proof fn law_opened_strategy_is_read_back(
    ledger: Ledger,
    caller: Seq<char>,
    user: Seq<char>,
    amount: int,
    now: nat,
)
    requires
        ledger.set_strat(caller, user, amount, now) is Ok,
    ensures
        ({
            let next = ledger.set_strat(caller, user, amount, now)->Ok_0;
            &&& next.get_strat(user) matches Ok(strategy)
            &&& strategy == StrategyView::opened(
                user,
                amount,
                ledger.pct->0,
                ledger.token->0,
                now,
            )
            &&& strategy.status == StrategyStatus::Active
            &&& strategy.expires_at - strategy.created_at == MATURITY_WINDOW
        }),
{
}

/// Only an active strategy expires: for a strategy that is `Expired` or
/// `Completed` the request is refused, and refused with `InvalidStatus` when
/// the administrator asks.
pub proof fn law_only_active_expires(ledger: Ledger, caller: Seq<char>, user: Seq<char>)
    requires
        ledger.strategies.contains_key(user),
        ledger.strategies[user].status != StrategyStatus::Active,
    ensures
        ledger.set_s_exp(caller, user) is Err,
        ledger.admin == Some(caller) ==> ledger.set_s_exp(caller, user) is Err
            && ledger.set_s_exp(caller, user)->Err_0 == YieldError::InvalidStatus,
{
}

/// A strategy expires once: after it has expired, neither at once nor after
/// it was completed can it expire again.
pub proof fn law_expires_once(ledger: Ledger, caller: Seq<char>, user: Seq<char>)
    requires
        ledger.set_s_exp(caller, user) is Ok,
    ensures
        ({
            let expired = ledger.set_s_exp(caller, user)->Ok_0.0;
            &&& expired.set_s_exp(caller, user) is Err
            &&& expired.set_s_exp(caller, user)->Err_0 == YieldError::InvalidStatus
            &&& expired.set_s_cmp(caller, user) matches Ok(completed)
            &&& completed.set_s_exp(caller, user) is Err
            &&& completed.set_s_exp(caller, user)->Err_0 == YieldError::InvalidStatus
        }),
{
}

/// Only an expired strategy is completed: for a strategy that is `Active` or
/// `Completed` the administrator's request is refused with `InvalidStatus`.
pub proof fn law_only_expired_completes(ledger: Ledger, caller: Seq<char>, user: Seq<char>)
    requires
        ledger.admin == Some(caller),
        ledger.strategies.contains_key(user),
        ledger.strategies[user].status != StrategyStatus::Expired,
    ensures
        ledger.set_s_cmp(caller, user) == Err::<Ledger, _>(YieldError::InvalidStatus),
{
}

/// A strategy that has just been opened cannot be completed, and nothing
/// can be withdrawn from it, whatever the balance: both are refused with
/// `InvalidStatus`.
pub proof fn law_opened_strategy_is_not_completed(
    ledger: Ledger,
    caller: Seq<char>,
    user: Seq<char>,
    amount: int,
    now: nat,
    withdrawn: int,
    balance: int,
)
    requires
        ledger.set_strat(caller, user, amount, now) is Ok,
    ensures
        ({
            let next = ledger.set_strat(caller, user, amount, now)->Ok_0;
            &&& next.set_s_cmp(caller, user) == Err::<Ledger, _>(YieldError::InvalidStatus)
            &&& next.begin_withdraw(caller, user) is Err
            &&& next.begin_withdraw(caller, user)->Err_0 == YieldError::InvalidStatus
            &&& next.withdraw(caller, withdrawn, user, balance) is Err
            &&& next.withdraw(caller, withdrawn, user, balance)->Err_0
                == YieldError::InvalidStatus
        }),
{
}

/// Nothing is withdrawn from a strategy before it is completed: the
/// administrator's request is refused with `InvalidStatus`, whatever the
/// amount and the balance.
pub proof fn law_withdraw_needs_completed(
    ledger: Ledger,
    caller: Seq<char>,
    amount: int,
    user: Seq<char>,
    balance: int,
)
    requires
        ledger.admin == Some(caller),
        ledger.strategies.contains_key(user),
        ledger.strategies[user].status != StrategyStatus::Completed,
    ensures
        ledger.begin_withdraw(caller, user) is Err,
        ledger.begin_withdraw(caller, user)->Err_0 == YieldError::InvalidStatus,
        ledger.withdraw(caller, amount, user, balance) is Err,
        ledger.withdraw(caller, amount, user, balance)->Err_0 == YieldError::InvalidStatus,
{
}

/// From a completed strategy the administrator withdraws `amount` exactly
/// when the balance exceeds it; otherwise the request is refused with
/// `NotEnoughBalance`.
pub proof fn law_withdraw_needs_balance(
    ledger: Ledger,
    caller: Seq<char>,
    amount: int,
    user: Seq<char>,
    balance: int,
)
    requires
        ledger.admin == Some(caller),
        ledger.strategies.contains_key(user),
        ledger.strategies[user].status == StrategyStatus::Completed,
    ensures
        ledger.withdraw(caller, amount, user, balance) is Ok <==> amount < balance,
        amount >= balance ==> ledger.withdraw(caller, amount, user, balance)->Err_0
            == YieldError::NotEnoughBalance,
{
}

/// The second half of a withdrawal is refused whenever the first half is,
/// and for the same reason.
pub proof fn law_withdraw_follows_begin(
    ledger: Ledger,
    caller: Seq<char>,
    amount: int,
    user: Seq<char>,
    balance: int,
)
    requires
        ledger.begin_withdraw(caller, user) is Err,
    ensures
        ledger.withdraw(caller, amount, user, balance) is Err,
        ledger.withdraw(caller, amount, user, balance)->Err_0 == ledger.begin_withdraw(
            caller,
            user,
        )->Err_0,
{
}

/// Once an administrator is set, nobody else gets anything done: every
/// privileged operation that another identity asks for is refused with
/// `Unauthorized`.
pub proof fn law_only_the_admin(
    ledger: Ledger,
    caller: Seq<char>,
    pct: int,
    token: Seq<char>,
    user: Seq<char>,
    amount: int,
    now: nat,
    balance: int,
)
    requires
        ledger.admin is Some,
        ledger.admin != Some(caller),
    ensures
        ledger.set_pct(caller, pct) == Err::<Ledger, _>(YieldError::Unauthorized),
        ledger.set_token(caller, token) == Err::<Ledger, _>(YieldError::Unauthorized),
        ledger.set_strat(caller, user, amount, now) == Err::<Ledger, _>(
            YieldError::Unauthorized,
        ),
        ledger.set_s_exp(caller, user) is Err,
        ledger.set_s_exp(caller, user)->Err_0 == YieldError::Unauthorized,
        ledger.set_s_cmp(caller, user) == Err::<Ledger, _>(YieldError::Unauthorized),
        ledger.accrue(caller, user, amount) is Err,
        ledger.accrue(caller, user, amount)->Err_0 == YieldError::Unauthorized,
        ledger.begin_withdraw(caller, user) is Err,
        ledger.begin_withdraw(caller, user)->Err_0 == YieldError::Unauthorized,
        ledger.withdraw(caller, amount, user, balance) is Err,
        ledger.withdraw(caller, amount, user, balance)->Err_0 == YieldError::Unauthorized,
{
}

/// The first administrator is the identity that proposes itself: on a
/// ledger without an administrator, initializing succeeds exactly when the
/// caller is the proposed administrator, and is refused with `Unauthorized`
/// otherwise. After that, initializing is always refused.
pub proof fn law_initialize_once(
    ledger: Ledger,
    caller: Seq<char>,
    admin: Seq<char>,
    later_caller: Seq<char>,
    later_admin: Seq<char>,
)
    requires
        ledger.admin is None,
    ensures
        ledger.initialize(caller, admin) is Ok <==> caller == admin,
        caller != admin ==> ledger.initialize(caller, admin) == Err::<Ledger, _>(
            YieldError::Unauthorized,
        ),
        ledger.initialize(caller, admin) matches Ok(next) ==> next.initialize(
            later_caller,
            later_admin,
        ) == Err::<Ledger, _>(YieldError::AlreadyInitialized),
{
}

/// The administrator is set once and never changes: initializing again is
/// refused with `AlreadyInitialized`, and no other operation touches the
/// administrator.
pub proof fn law_admin_is_set_once(
    ledger: Ledger,
    caller: Seq<char>,
    admin: Seq<char>,
    pct: int,
    token: Seq<char>,
    user: Seq<char>,
    amount: int,
    now: nat,
)
    requires
        ledger.admin is Some,
    ensures
        ledger.initialize(caller, admin) == Err::<Ledger, _>(YieldError::AlreadyInitialized),
        ledger.set_pct(caller, pct) matches Ok(next) ==> next.admin == ledger.admin,
        ledger.set_token(caller, token) matches Ok(next) ==> next.admin == ledger.admin,
        ledger.set_strat(caller, user, amount, now) matches Ok(next) ==> next.admin
            == ledger.admin,
        ledger.set_s_exp(caller, user) matches Ok(next) ==> next.0.admin == ledger.admin,
        ledger.set_s_cmp(caller, user) matches Ok(next) ==> next.admin == ledger.admin,
{
}

/// A strategy is opened only on a ledger on which the administrator, the
/// percentage and the token ledger are all set.
pub proof fn law_opening_needs_configuration(
    ledger: Ledger,
    caller: Seq<char>,
    user: Seq<char>,
    amount: int,
    now: nat,
)
    requires
        ledger.set_strat(caller, user, amount, now) is Ok,
    ensures
        ledger.admin == Some(caller),
        ledger.pct is Some,
        ledger.token is Some,
{
}

/// Nothing is settled without a strategy: yield is minted to an owner only
/// while the owner has a strategy, and an amount is burned only once the
/// owner's strategy is completed and the balance exceeds the amount. Both
/// happen on the strategy's token ledger and on the administrator's
/// authority.
pub proof fn law_settlement_needs_strategy(
    ledger: Ledger,
    caller: Seq<char>,
    user: Seq<char>,
    amount: int,
    balance: int,
)
    ensures
        ledger.accrue(caller, user, amount) matches Ok(call) ==> ({
            &&& ledger.strategies.contains_key(user)
            &&& call matches TokenCallView::Mint { token, to, amount: minted, authorizer }
            &&& token == ledger.strategies[user].token
            &&& to == user
            &&& minted == amount
            &&& ledger.admin == Some(authorizer)
        }),
        ledger.set_s_exp(caller, user) matches Ok(next) ==> ({
            &&& ledger.strategies.contains_key(user)
            &&& next.1 matches TokenCallView::Mint { token, to, amount: minted, authorizer }
            &&& token == ledger.strategies[user].token
            &&& to == user
            &&& minted == ledger.strategies[user].yield_due()
            &&& ledger.admin == Some(authorizer)
        }),
        ledger.withdraw(caller, amount, user, balance) matches Ok(call) ==> ({
            &&& ledger.strategies.contains_key(user)
            &&& ledger.strategies[user].status == StrategyStatus::Completed
            &&& amount < balance
            &&& call matches TokenCallView::Burn { token, from, amount: burned, authorizer }
            &&& token == ledger.strategies[user].token
            &&& from == user
            &&& burned == amount
            &&& ledger.admin == Some(authorizer)
        }),
{
}

/// Configuring leaves every strategy as it was: after the administrator is
/// set, or the percentage or the token ledger is changed, every owner's
/// strategy is read back unchanged, and of the configuration only the value
/// that was set has changed.
pub proof fn law_configuring_keeps_strategies(
    ledger: Ledger,
    caller: Seq<char>,
    admin: Seq<char>,
    pct: int,
    token: Seq<char>,
    owner: Seq<char>,
)
    ensures
        ledger.initialize(caller, admin) matches Ok(next) ==> next.get_strat(owner)
            == ledger.get_strat(owner) && next == (Ledger { admin: Some(admin), ..ledger }),
        ledger.set_pct(caller, pct) matches Ok(next) ==> next.get_strat(owner)
            == ledger.get_strat(owner) && next == (Ledger { pct: Some(pct), ..ledger }),
        ledger.set_token(caller, token) matches Ok(next) ==> next.get_strat(owner)
            == ledger.get_strat(owner) && next == (Ledger { token: Some(token), ..ledger }),
{
}

/// Opening a strategy changes what is read back for its owner and for
/// nobody else, and leaves the configuration as it was.
pub proof fn law_opening_touches_one_owner(
    ledger: Ledger,
    caller: Seq<char>,
    user: Seq<char>,
    amount: int,
    now: nat,
    owner: Seq<char>,
)
    requires
        ledger.set_strat(caller, user, amount, now) is Ok,
        owner != user,
    ensures
        ({
            let next = ledger.set_strat(caller, user, amount, now)->Ok_0;
            &&& next.get_strat(owner) == ledger.get_strat(owner)
            &&& next.admin == ledger.admin
            &&& next.pct == ledger.pct
            &&& next.token == ledger.token
        }),
{
}

/// Expiring changes the status of one strategy and nothing else: the
/// strategy is read back `Expired` with every other field as before, every
/// other owner's strategy is read back unchanged, and so is the
/// configuration.
pub proof fn law_expiring_changes_status_only(
    ledger: Ledger,
    caller: Seq<char>,
    user: Seq<char>,
    owner: Seq<char>,
)
    requires
        ledger.set_s_exp(caller, user) is Ok,
    ensures
        ({
            let next = ledger.set_s_exp(caller, user)->Ok_0.0;
            &&& ledger.get_strat(user) matches Ok(before)
            &&& before.status == StrategyStatus::Active
            &&& next.get_strat(user) == Ok::<_, YieldError>(
                before.with_status(StrategyStatus::Expired),
            )
            &&& owner != user ==> next.get_strat(owner) == ledger.get_strat(owner)
            &&& next.admin == ledger.admin
            &&& next.pct == ledger.pct
            &&& next.token == ledger.token
        }),
{
}

/// Completing changes the status of one strategy and nothing else: the
/// strategy is read back `Completed` with every other field as before,
/// every other owner's strategy is read back unchanged, and so is the
/// configuration.
pub proof fn law_completing_changes_status_only(
    ledger: Ledger,
    caller: Seq<char>,
    user: Seq<char>,
    owner: Seq<char>,
)
    requires
        ledger.set_s_cmp(caller, user) is Ok,
    ensures
        ({
            let next = ledger.set_s_cmp(caller, user)->Ok_0;
            &&& ledger.get_strat(user) matches Ok(before)
            &&& before.status == StrategyStatus::Expired
            &&& next.get_strat(user) == Ok::<_, YieldError>(
                before.with_status(StrategyStatus::Completed),
            )
            &&& owner != user ==> next.get_strat(owner) == ledger.get_strat(owner)
            &&& next.admin == ledger.admin
            &&& next.pct == ledger.pct
            &&& next.token == ledger.token
        }),
{
}

/// The administrator can always take a strategy through its whole life. On
/// a ledger with a percentage and a token ledger configured, at a time
/// whose maturity fits in 64 bits and for a principal whose monthly yield
/// fits in 128 bits: opening succeeds; expiring then succeeds and mints the
/// principal times a twelfth of the configured percentage; completing then
/// succeeds; and then any amount below the balance is withdrawn.
pub proof fn law_lifecycle_runs(
    ledger: Ledger,
    admin: Seq<char>,
    user: Seq<char>,
    amount: int,
    now: nat,
    withdrawn: int,
    balance: int,
)
    requires
        ledger.admin == Some(admin),
        ledger.pct is Some,
        ledger.token is Some,
        now + MATURITY_WINDOW <= u64::MAX,
        i128::MIN <= amount * monthly_rate(ledger.pct->0) <= i128::MAX,
        withdrawn < balance,
    ensures
        ({
            let pct = ledger.pct->0;
            let token = ledger.token->0;
            &&& ledger.set_strat(admin, user, amount, now) matches Ok(opened)
            &&& opened.set_s_exp(admin, user) matches Ok(expired)
            &&& expired.1 == (TokenCallView::Mint {
                token,
                to: user,
                amount: amount * monthly_rate(pct),
                authorizer: admin,
            })
            &&& expired.0.set_s_cmp(admin, user) matches Ok(completed)
            &&& completed.begin_withdraw(admin, user) is Ok
            &&& completed.withdraw(admin, withdrawn, user, balance) matches Ok(burn)
            &&& burn == (TokenCallView::Burn {
                token,
                from: user,
                amount: withdrawn,
                authorizer: admin,
            })
            &&& completed.get_strat(user) == Ok::<_, YieldError>(
                StrategyView::opened(user, amount, pct, token, now).with_status(
                    StrategyStatus::Completed,
                ),
            )
        }),
{
}

/// A ledger that is in order stays in order, whatever operation succeeds:
/// the percentage, once set, lies in `1..=10000`, and every strategy is
/// filed under its own owner.
pub proof fn law_order_is_kept(
    ledger: Ledger,
    caller: Seq<char>,
    admin: Seq<char>,
    pct: int,
    token: Seq<char>,
    user: Seq<char>,
    amount: int,
    now: nat,
)
    requires
        ledger.wf(),
    ensures
        Ledger::empty().wf(),
        ledger.initialize(caller, admin) matches Ok(next) ==> next.wf(),
        ledger.set_pct(caller, pct) matches Ok(next) ==> next.wf(),
        ledger.set_token(caller, token) matches Ok(next) ==> next.wf(),
        ledger.set_strat(caller, user, amount, now) matches Ok(next) ==> next.wf(),
        ledger.set_s_exp(caller, user) matches Ok(next) ==> next.0.wf(),
        ledger.set_s_cmp(caller, user) matches Ok(next) ==> next.wf(),
{
}

/// A strategy is opened with a percentage that could be configured: on a
/// ledger that is in order, the strategy that is opened carries a
/// percentage in `1..=10000`, so its monthly rate lies in `0..=833`.
pub proof fn law_opened_strategy_has_valid_pct(
    ledger: Ledger,
    caller: Seq<char>,
    user: Seq<char>,
    amount: int,
    now: nat,
)
    requires
        ledger.wf(),
        ledger.set_strat(caller, user, amount, now) is Ok,
    ensures
        ({
            let strategy = ledger.set_strat(caller, user, amount, now)->Ok_0.strategies[user];
            &&& valid_pct(strategy.pct)
            &&& 0 <= monthly_rate(strategy.pct) <= 833
            &&& strategy.yield_due() == amount * (strategy.pct / 12)
        }),
{
}

/// The monthly rate is a twelfth of the yearly percentage, rounded toward
/// zero: it has the sign of the percentage, and twelve times the rate falls
/// short of the percentage by less than twelve.
pub proof fn law_monthly_rate_rounds_toward_zero(pct: int)
    ensures
        pct >= 0 ==> 12 * monthly_rate(pct) <= pct < 12 * monthly_rate(pct) + 12,
        pct <= 0 ==> 12 * monthly_rate(pct) - 12 < pct <= 12 * monthly_rate(pct),
        monthly_rate(-pct) == -monthly_rate(pct),
{
}

} // verus!
