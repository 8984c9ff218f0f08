//! The yield distributor: the ledger and its operations.

use vstd::prelude::*;
use crate::address::{view_of, Address};
use crate::error::YieldError;
use crate::ledger::{is_valid_pct, valid_pct, Ledger};
use crate::store::StrategyStore;
use crate::strategy::{Strategy, StrategyStatus, StrategyView};
use crate::token::{BalanceQuery, BalanceQueryView, CustomTokenClient, TokenCall, TokenCallView};

verus! {

/// A yield distributor: one administrator, the percentage and the token
/// ledger for new strategies, and one strategy at most for each owner.
///
/// Every operation that changes anything is the administrator's: it takes
/// the `caller`, the identity that the host has found to have authorized the
/// call, and is refused unless that is the administrator. An operation
/// either succeeds or is refused with a [`YieldError`] and changes nothing.
///
/// Settlement happens on a token ledger outside. An operation that settles
/// hands back the [`TokenCall`] to make. The host makes that call before it
/// keeps the distributor's new state, and keeps it only if the call
/// succeeds: the change of state and the settlement stand or fall together.
/// A host whose own state is the distributor keeps a copy to go back to.
/// Where the host cannot undo the one when the other fails, a strategy may
/// be left `Expired` with its yield never minted.
///
/// The view of a distributor is its [`Ledger`]; what each operation does is
/// given by the function of the same name there.
#[derive(Debug)]
pub struct YieldDistributor {
    admin: Option<Address>,
    pct: Option<i128>,
    token: Option<Address>,
    strategies: StrategyStore,
}

/// A percentage that may be absent, as a mathematical value.
pub open spec fn pct_of(pct: Option<i128>) -> Option<int> {
    match pct {
        Some(pct) => Some(pct as int),
        None => None,
    }
}

/// The strategies on record when `strategy`, if given, is the only one.
pub open spec fn sole_strategy(strategy: Option<Strategy>) -> Map<Seq<char>, StrategyView> {
    match strategy {
        Some(strategy) => Map::empty().insert(strategy.user@, strategy@),
        None => Map::empty(),
    }
}

impl View for YieldDistributor {
    type V = Ledger;

    closed spec fn view(&self) -> Ledger {
        Ledger {
            admin: view_of(self.admin),
            pct: pct_of(self.pct),
            token: view_of(self.token),
            strategies: self.strategies@,
        }
    }
}

impl Clone for YieldDistributor {
    /// A copy of the distributor, by which a host can go back to the state
    /// before an operation whose settlement failed.
    fn clone(&self) -> (r: Self)
        ensures
            r@ == self@,
            self.wf() ==> r.wf(),
    {
        YieldDistributor {
            admin: match &self.admin {
                Some(admin) => Some(admin.clone()),
                None => None,
            },
            pct: self.pct,
            token: match &self.token {
                Some(token) => Some(token.clone()),
                None => None,
            },
            strategies: self.strategies.clone(),
        }
    }
}

impl YieldDistributor {
    /// Whether the distributor is in order. Every distributor that this
    /// crate hands out is, and every operation keeps it so.
    pub closed spec fn wf(&self) -> bool {
        &&& self.strategies.wf()
        &&& self.pct matches Some(pct) ==> valid_pct(pct as int)
    }

    /// The ledger of a distributor that is in order is in order.
    pub proof fn lemma_ledger_wf(&self)
        requires
            self.wf(),
        ensures
            self@.wf(),
    {
        self.strategies.lemma_filed_by_owner();
    }

    /// A distributor on which nothing is set and nothing is on record.
    pub fn new() -> (r: YieldDistributor)
        ensures
            r.wf(),
            r@ == Ledger::empty(),
    {
        YieldDistributor { admin: None, pct: None, token: None, strategies: StrategyStore::new() }
    }

    /// The distributor with the given configuration and, if `strategy` is
    /// given, that one strategy on record. It is for a host that keeps the
    /// parts of the ledger itself and brings back those that an operation
    /// needs. A percentage that cannot be configured is refused with
    /// `InvalidPercentage`.
    pub fn restore(
        admin: Option<Address>,
        pct: Option<i128>,
        token: Option<Address>,
        strategy: Option<Strategy>,
    ) -> (r: Result<YieldDistributor, YieldError>)
        ensures
            r is Err <==> (pct matches Some(p) && !valid_pct(p as int)),
            r matches Err(e) ==> e == YieldError::InvalidPercentage,
            r matches Ok(d) ==> d.wf() && d@ == (Ledger {
                admin: view_of(admin),
                pct: pct_of(pct),
                token: view_of(token),
                strategies: sole_strategy(strategy),
            }),
    {
        if let Some(p) = pct {
            if !is_valid_pct(p) {
                return Err(YieldError::InvalidPercentage);
            }
        }
        let mut strategies = StrategyStore::new();
        if let Some(s) = strategy {
            strategies.set(s);
        }
        Ok(YieldDistributor { admin, pct, token, strategies })
    }

    /// The guard of every privileged operation: hands back the
    /// administrator if `caller` is that identity. It is refused with
    /// `NotInitialized` when no administrator is set and with `Unauthorized`
    /// when `caller` is somebody else.
    pub fn require_admin(&self, caller: &Address) -> (r: Result<Address, YieldError>)
        ensures
            match r {
                Ok(admin) => self@.require_admin(caller@) == Ok::<_, YieldError>(admin@),
                Err(e) => self@.require_admin(caller@) == Err::<Seq<char>, _>(e),
            },
    {
        match &self.admin {
            None => Err(YieldError::NotInitialized),
            Some(admin) => {
                if *admin == *caller {
                    Ok(admin.clone())
                } else {
                    Err(YieldError::Unauthorized)
                }
            },
        }
    }

    /// Makes `admin` the administrator. This happens once. It is refused
    /// with `AlreadyInitialized` when an administrator is set, and
    /// otherwise with `Unauthorized` when `caller` is not `admin`.
    pub fn initialize(&mut self, caller: &Address, admin: Address) -> (r: Result<(), YieldError>)
        requires
            old(self).wf(),
        ensures
            final(self).wf(),
            match r {
                Ok(()) => old(self)@.initialize(caller@, admin@) == Ok::<_, YieldError>(
                    final(self)@,
                ),
                Err(e) => old(self)@.initialize(caller@, admin@) == Err::<Ledger, _>(e)
                    && final(self)@ == old(self)@,
            },
    {
        if self.admin.is_some() {
            return Err(YieldError::AlreadyInitialized);
        }
        if *caller != admin {
            return Err(YieldError::Unauthorized);
        }
        self.admin = Some(admin);
        Ok(())
    }

    /// The administrator, or `NotInitialized` when none is set.
    pub fn get_admin(&self) -> (r: Result<Address, YieldError>)
        ensures
            match r {
                Ok(admin) => self@.get_admin() == Ok::<_, YieldError>(admin@),
                Err(e) => self@.get_admin() == Err::<Seq<char>, _>(e),
            },
    {
        match &self.admin {
            Some(admin) => Ok(admin.clone()),
            None => Err(YieldError::NotInitialized),
        }
    }

    /// Sets the percentage, in hundredths of a percent, for strategies
    /// opened from now on. Strategies on record keep theirs. After the
    /// guard, a percentage outside `1..=10000` is refused with
    /// `InvalidPercentage`.
    pub fn set_pct(&mut self, caller: &Address, pct: i128) -> (r: Result<(), YieldError>)
        requires
            old(self).wf(),
        ensures
            final(self).wf(),
            match r {
                Ok(()) => old(self)@.set_pct(caller@, pct as int) == Ok::<_, YieldError>(
                    final(self)@,
                ),
                Err(e) => old(self)@.set_pct(caller@, pct as int) == Err::<Ledger, _>(e)
                    && final(self)@ == old(self)@,
            },
            !valid_pct(pct as int) ==> r is Err && final(self)@ == old(self)@,
            !valid_pct(pct as int) && old(self)@.admin == Some(caller@)
                ==> r == Err::<(), YieldError>(YieldError::InvalidPercentage),
    {
        match self.require_admin(caller) {
            Ok(_) => {},
            Err(e) => {
                return Err(e);
            },
        }
        if !is_valid_pct(pct) {
            return Err(YieldError::InvalidPercentage);
        }
        self.pct = Some(pct);
        Ok(())
    }

    /// The percentage for new strategies, or `NotInitialized` when none is
    /// set. A percentage that is set lies in `1..=10000`.
    pub fn get_pct(&self) -> (r: Result<i128, YieldError>)
        requires
            self.wf(),
        ensures
            match r {
                Ok(pct) => self@.get_pct() == Ok::<_, YieldError>(pct as int) && valid_pct(
                    pct as int,
                ),
                Err(e) => self@.get_pct() == Err::<int, _>(e),
            },
    {
        match self.pct {
            Some(pct) => Ok(pct),
            None => Err(YieldError::NotInitialized),
        }
    }

    /// Sets the token ledger for strategies opened from now on. Strategies
    /// on record keep theirs.
    pub fn set_token(&mut self, caller: &Address, token: Address) -> (r: Result<(), YieldError>)
        requires
            old(self).wf(),
        ensures
            final(self).wf(),
            match r {
                Ok(()) => old(self)@.set_token(caller@, token@) == Ok::<_, YieldError>(
                    final(self)@,
                ),
                Err(e) => old(self)@.set_token(caller@, token@) == Err::<Ledger, _>(e)
                    && final(self)@ == old(self)@,
            },
    {
        match self.require_admin(caller) {
            Ok(_) => {},
            Err(e) => {
                return Err(e);
            },
        }
        self.token = Some(token);
        Ok(())
    }

    /// The token ledger for new strategies, or `NotInitialized` when none
    /// is set.
    pub fn get_token(&self) -> (r: Result<Address, YieldError>)
        ensures
            match r {
                Ok(token) => self@.get_token() == Ok::<_, YieldError>(token@),
                Err(e) => self@.get_token() == Err::<Seq<char>, _>(e),
            },
    {
        match &self.token {
            Some(token) => Ok(token.clone()),
            None => Err(YieldError::NotInitialized),
        }
    }

    /// Opens a strategy of `amount` for `user` at time `now`: active, with
    /// the percentage and the token ledger that are configured, and maturing
    /// [`crate::MATURITY_WINDOW`] later. A strategy that `user` already has
    /// is replaced, whatever its status.
    ///
    /// After the guard, it is refused with `NotInitialized` when the
    /// percentage or the token ledger is not set, and with `Overflow` when
    /// the maturity time does not fit in 64 bits.
    pub fn set_strat(
        &mut self,
        caller: &Address,
        user: Address,
        amount: i128,
        now: u64,
    ) -> (r: Result<(), YieldError>)
        requires
            old(self).wf(),
        ensures
            final(self).wf(),
            match r {
                Ok(()) => old(self)@.set_strat(caller@, user@, amount as int, now as nat)
                    == Ok::<_, YieldError>(final(self)@),
                Err(e) => old(self)@.set_strat(caller@, user@, amount as int, now as nat)
                    == Err::<Ledger, _>(e) && final(self)@ == old(self)@,
            },
    {
        match self.require_admin(caller) {
            Ok(_) => {},
            Err(e) => {
                return Err(e);
            },
        }
        let pct = match self.get_pct() {
            Ok(pct) => pct,
            Err(e) => {
                return Err(e);
            },
        };
        let token = match self.get_token() {
            Ok(token) => token,
            Err(e) => {
                return Err(e);
            },
        };
        match Strategy::open(user, amount, pct, token, now) {
            Some(strategy) => {
                self.strategies.set(strategy);
                Ok(())
            },
            None => Err(YieldError::Overflow),
        }
    }

    /// The strategy of `user`, or `NotInitialized` when `user` has none.
    /// Anybody may ask.
    pub fn get_strat(&self, user: &Address) -> (r: Result<Strategy, YieldError>)
        requires
            self.wf(),
        ensures
            match r {
                Ok(strategy) => self@.get_strat(user@) == Ok::<_, YieldError>(strategy@)
                    && strategy@.user == user@,
                Err(e) => self@.get_strat(user@) == Err::<StrategyView, _>(e),
            },
    {
        proof {
            self.lemma_ledger_wf();
        }
        match self.strategies.get(user) {
            Some(strategy) => Ok(strategy),
            None => Err(YieldError::NotInitialized),
        }
    }

    /// Lets the strategy of `user` expire. The strategy becomes `Expired`,
    /// and the call handed back mints one month's yield to `user` on the
    /// strategy's token ledger, on the administrator's authority. The yield
    /// is the principal times a twelfth of the strategy's percentage; the
    /// twelfth is rounded toward zero on purpose.
    ///
    /// After the guard, it is refused with `NotInitialized` when `user` has
    /// no strategy, with `InvalidStatus` when the strategy is not `Active`
    /// (so a strategy expires once), and with `Overflow` when the yield does
    /// not fit in 128 bits.
    pub fn set_s_exp(
        &mut self,
        caller: &Address,
        user: &Address,
    ) -> (r: Result<TokenCall, YieldError>)
        requires
            old(self).wf(),
        ensures
            final(self).wf(),
            match r {
                Ok(call) => old(self)@.set_s_exp(caller@, user@) == Ok::<_, YieldError>(
                    (final(self)@, call@),
                ),
                Err(e) => old(self)@.set_s_exp(caller@, user@)
                    == Err::<(Ledger, TokenCallView), YieldError>(e)
                    && final(self)@ == old(self)@,
            },
            old(self)@.strategies.contains_key(user@)
                && old(self)@.strategies[user@].status != StrategyStatus::Active
                ==> r is Err && final(self)@ == old(self)@,
            old(self)@.strategies.contains_key(user@)
                && old(self)@.strategies[user@].status != StrategyStatus::Active
                && old(self)@.admin == Some(caller@)
                ==> r == Err::<TokenCall, YieldError>(YieldError::InvalidStatus),
    {
        let admin = match self.require_admin(caller) {
            Ok(admin) => admin,
            Err(e) => {
                return Err(e);
            },
        };
        let strategy = match self.get_strat(user) {
            Ok(strategy) => strategy,
            Err(e) => {
                return Err(e);
            },
        };
        if strategy.status != StrategyStatus::Active {
            return Err(YieldError::InvalidStatus);
        }
        let yield_amount = match strategy.yield_due() {
            Some(yield_amount) => yield_amount,
            None => {
                return Err(YieldError::Overflow);
            },
        };
        let call = CustomTokenClient::new(&strategy.token).mint(user, yield_amount, &admin);
        self.strategies.set(strategy.with_status(StrategyStatus::Expired));
        Ok(call)
    }

    /// Completes the strategy of `user`: the strategy becomes `Completed`.
    ///
    /// After the guard, it is refused with `NotInitialized` when `user` has
    /// no strategy and with `InvalidStatus` when the strategy is not
    /// `Expired`.
    pub fn set_s_cmp(&mut self, caller: &Address, user: &Address) -> (r: Result<(), YieldError>)
        requires
            old(self).wf(),
        ensures
            final(self).wf(),
            match r {
                Ok(()) => old(self)@.set_s_cmp(caller@, user@) == Ok::<_, YieldError>(
                    final(self)@,
                ),
                Err(e) => old(self)@.set_s_cmp(caller@, user@) == Err::<Ledger, _>(e)
                    && final(self)@ == old(self)@,
            },
            old(self)@.strategies.contains_key(user@)
                && old(self)@.strategies[user@].status != StrategyStatus::Expired
                ==> r is Err && final(self)@ == old(self)@,
            old(self)@.strategies.contains_key(user@)
                && old(self)@.strategies[user@].status != StrategyStatus::Expired
                && old(self)@.admin == Some(caller@)
                ==> r == Err::<(), YieldError>(YieldError::InvalidStatus),
    {
        match self.require_admin(caller) {
            Ok(_) => {},
            Err(e) => {
                return Err(e);
            },
        }
        let strategy = match self.get_strat(user) {
            Ok(strategy) => strategy,
            Err(e) => {
                return Err(e);
            },
        };
        if strategy.status != StrategyStatus::Expired {
            return Err(YieldError::InvalidStatus);
        }
        self.strategies.set(strategy.with_status(StrategyStatus::Completed));
        Ok(())
    }

    /// The call that mints `amount` to `to` on the token ledger of the
    /// strategy of `to`, on the administrator's authority. It is refused
    /// with `NotInitialized` when no administrator is set or `to` has no
    /// strategy.
    fn set_apy(&self, to: &Address, amount: i128) -> (r: Result<TokenCall, YieldError>)
        requires
            self.wf(),
        ensures
            match r {
                Ok(call) => self@.set_apy(to@, amount as int) == Ok::<_, YieldError>(call@),
                Err(e) => self@.set_apy(to@, amount as int) == Err::<TokenCallView, _>(e),
            },
    {
        let admin = match self.get_admin() {
            Ok(admin) => admin,
            Err(e) => {
                return Err(e);
            },
        };
        let strategy = match self.get_strat(to) {
            Ok(strategy) => strategy,
            Err(e) => {
                return Err(e);
            },
        };
        Ok(CustomTokenClient::new(&strategy.token).mint(to, amount, &admin))
    }

    /// The query for what `user` holds on the token ledger of the strategy
    /// of `user`: the yield balance. It is refused with `NotInitialized`
    /// when `user` has no strategy. Anybody may ask.
    pub fn get_apy(&self, user: &Address) -> (r: Result<BalanceQuery, YieldError>)
        requires
            self.wf(),
        ensures
            match r {
                Ok(query) => self@.get_apy(user@) == Ok::<_, YieldError>(query@),
                Err(e) => self@.get_apy(user@) == Err::<BalanceQueryView, _>(e),
            },
    {
        let strategy = match self.get_strat(user) {
            Ok(strategy) => strategy,
            Err(e) => {
                return Err(e);
            },
        };
        Ok(CustomTokenClient::new(&strategy.token).read_balance(user))
    }

    /// Accrues `amount` of yield to `user`: the call handed back mints it
    /// on the token ledger of the strategy of `user`, on the administrator's
    /// authority. The ledger does not change, and no strategy is ever opened
    /// by accruing: after the guard, it is refused with `InvalidStrategy`
    /// when `user` has no strategy.
    pub fn accrue(
        &self,
        caller: &Address,
        user: &Address,
        amount: i128,
    ) -> (r: Result<TokenCall, YieldError>)
        requires
            self.wf(),
        ensures
            match r {
                Ok(call) => self@.accrue(caller@, user@, amount as int)
                    == Ok::<_, YieldError>(call@),
                Err(e) => self@.accrue(caller@, user@, amount as int)
                    == Err::<TokenCallView, _>(e),
            },
    {
        match self.require_admin(caller) {
            Ok(_) => {},
            Err(e) => {
                return Err(e);
            },
        }
        if !self.strategies.has(user) {
            return Err(YieldError::InvalidStrategy);
        }
        self.set_apy(user, amount)
    }

    /// The first half of a withdrawal by `user`: the query for the balance
    /// of `user` on the strategy's token ledger, which
    /// [`YieldDistributor::withdraw`] then needs.
    ///
    /// After the guard, it is refused with `NotInitialized` when `user` has
    /// no strategy and with `InvalidStatus` when the strategy is not
    /// `Completed`.
    pub fn begin_withdraw(
        &self,
        caller: &Address,
        user: &Address,
    ) -> (r: Result<BalanceQuery, YieldError>)
        requires
            self.wf(),
        ensures
            match r {
                Ok(query) => self@.begin_withdraw(caller@, user@) == Ok::<_, YieldError>(query@),
                Err(e) => self@.begin_withdraw(caller@, user@) == Err::<BalanceQueryView, _>(e),
            },
    {
        match self.require_admin(caller) {
            Ok(_) => {},
            Err(e) => {
                return Err(e);
            },
        }
        let strategy = match self.get_strat(user) {
            Ok(strategy) => strategy,
            Err(e) => {
                return Err(e);
            },
        };
        if strategy.status != StrategyStatus::Completed {
            return Err(YieldError::InvalidStatus);
        }
        Ok(CustomTokenClient::new(&strategy.token).read_balance(user))
    }

    /// Withdraws `amount` for `user`, whose balance on the strategy's token
    /// ledger the host has read as `balance`: the call handed back burns
    /// `amount` from `user`, on the administrator's authority. The ledger
    /// does not change.
    ///
    /// It is refused as [`YieldDistributor::begin_withdraw`] is, and then
    /// with `NotEnoughBalance` unless `balance` exceeds `amount`.
    pub fn withdraw(
        &self,
        caller: &Address,
        amount: i128,
        user: &Address,
        balance: i128,
    ) -> (r: Result<TokenCall, YieldError>)
        requires
            self.wf(),
        ensures
            match r {
                Ok(call) => self@.withdraw(caller@, amount as int, user@, balance as int)
                    == Ok::<_, YieldError>(call@),
                Err(e) => self@.withdraw(caller@, amount as int, user@, balance as int)
                    == Err::<TokenCallView, YieldError>(e),
            },
            self@.admin == Some(caller@) && self@.strategies.contains_key(user@)
                && self@.strategies[user@].status != StrategyStatus::Completed
                ==> r == Err::<TokenCall, YieldError>(YieldError::InvalidStatus),
            self@.admin == Some(caller@) && self@.strategies.contains_key(user@)
                && self@.strategies[user@].status == StrategyStatus::Completed
                && amount >= balance
                ==> r == Err::<TokenCall, YieldError>(YieldError::NotEnoughBalance),
    {
        let admin = match self.require_admin(caller) {
            Ok(admin) => admin,
            Err(e) => {
                return Err(e);
            },
        };
        let strategy = match self.get_strat(user) {
            Ok(strategy) => strategy,
            Err(e) => {
                return Err(e);
            },
        };
        if strategy.status != StrategyStatus::Completed {
            return Err(YieldError::InvalidStatus);
        }
        if balance <= amount {
            return Err(YieldError::NotEnoughBalance);
        }
        Ok(CustomTokenClient::new(&strategy.token).burn(user, amount, &admin))
    }
}

} // verus!
