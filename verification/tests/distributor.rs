use yield_ledger::{
    Address, BalanceQuery, Strategy, StrategyStatus, TokenCall, YieldDistributor, YieldError, MATURITY_WINDOW,
};

fn admin() -> Address {
    Address::from_str("GADMIN")
}

fn owner() -> Address {
    Address::from_str("GOWNER")
}

fn other() -> Address {
    Address::from_str("GOTHER")
}

fn token() -> Address {
    Address::from_str("CTOKEN")
}

/// A distributor with an administrator, the given percentage and a token.
fn configured(pct: i128) -> YieldDistributor {
    let mut d = YieldDistributor::new();
    assert_eq!(d.initialize(&admin(), admin()), Ok(()));
    assert_eq!(d.set_pct(&admin(), pct), Ok(()));
    assert_eq!(d.set_token(&admin(), token()), Ok(()));
    d
}

/// A configured distributor with a strategy of `amount` for the owner, opened at `now`.
fn opened(pct: i128, amount: i128, now: u64) -> YieldDistributor {
    let mut d = configured(pct);
    assert_eq!(d.set_strat(&admin(), owner(), amount, now), Ok(()));
    d
}

fn expected(amount: i128, pct: i128, now: u64, status: StrategyStatus) -> Strategy {
    Strategy {
        user: owner(),
        amount,
        pct,
        token: token(),
        created_at: now,
        expires_at: now + MATURITY_WINDOW,
        status,
    }
}

#[test]
fn new_distributor_has_nothing_set() {
    let d = YieldDistributor::new();
    assert_eq!(d.get_admin(), Err(YieldError::NotInitialized));
    assert_eq!(d.get_pct(), Err(YieldError::NotInitialized));
    assert_eq!(d.get_token(), Err(YieldError::NotInitialized));
    assert_eq!(d.get_strat(&owner()), Err(YieldError::NotInitialized));
}

#[test]
fn initialize_sets_the_admin() {
    let mut d = YieldDistributor::new();
    assert_eq!(d.initialize(&admin(), admin()), Ok(()));
    assert_eq!(d.get_admin(), Ok(admin()));
    assert_eq!(d.get_pct(), Err(YieldError::NotInitialized));
    assert_eq!(d.get_token(), Err(YieldError::NotInitialized));
}

#[test]
fn initialize_twice_fails() {
    let mut d = YieldDistributor::new();
    assert_eq!(d.initialize(&admin(), admin()), Ok(()));
    assert_eq!(d.initialize(&admin(), admin()), Err(YieldError::AlreadyInitialized));
    assert_eq!(d.initialize(&other(), other()), Err(YieldError::AlreadyInitialized));
    assert_eq!(d.initialize(&other(), admin()), Err(YieldError::AlreadyInitialized));
    assert_eq!(d.get_admin(), Ok(admin()));
}

#[test]
fn initialize_needs_the_proposed_admin() {
    let mut d = YieldDistributor::new();
    assert_eq!(d.initialize(&other(), admin()), Err(YieldError::Unauthorized));
    assert_eq!(d.get_admin(), Err(YieldError::NotInitialized));
    assert_eq!(d.initialize(&admin(), admin()), Ok(()));
    assert_eq!(d.get_admin(), Ok(admin()));
}

#[test]
fn require_admin_guards() {
    let mut d = YieldDistributor::new();
    assert_eq!(d.require_admin(&admin()), Err(YieldError::NotInitialized));
    assert_eq!(d.initialize(&admin(), admin()), Ok(()));
    assert_eq!(d.require_admin(&admin()), Ok(admin()));
    assert_eq!(d.require_admin(&other()), Err(YieldError::Unauthorized));
    assert_eq!(d.require_admin(&Address::from_str("")), Err(YieldError::Unauthorized));
}

#[test]
fn set_pct_accepts_the_whole_range() {
    let mut d = configured(1);
    assert_eq!(d.get_pct(), Ok(1));
    assert_eq!(d.set_pct(&admin(), 10000), Ok(()));
    assert_eq!(d.get_pct(), Ok(10000));
    assert_eq!(d.set_pct(&admin(), 1200), Ok(()));
    assert_eq!(d.get_pct(), Ok(1200));
}

#[test]
fn set_pct_out_of_range_changes_nothing() {
    let mut d = configured(1200);
    for pct in [0, -1, 10001, i128::MAX, i128::MIN, 20000] {
        assert_eq!(d.set_pct(&admin(), pct), Err(YieldError::InvalidPercentage));
        assert_eq!(d.get_pct(), Ok(1200));
        assert_eq!(d.get_admin(), Ok(admin()));
        assert_eq!(d.get_token(), Ok(token()));
    }
}

#[test]
fn set_pct_out_of_range_before_any_percentage() {
    let mut d = YieldDistributor::new();
    assert_eq!(d.initialize(&admin(), admin()), Ok(()));
    assert_eq!(d.set_pct(&admin(), 0), Err(YieldError::InvalidPercentage));
    assert_eq!(d.get_pct(), Err(YieldError::NotInitialized));
}

#[test]
fn set_pct_before_initialize_fails() {
    let mut d = YieldDistributor::new();
    assert_eq!(d.set_pct(&admin(), 1200), Err(YieldError::NotInitialized));
    assert_eq!(d.set_pct(&admin(), 0), Err(YieldError::NotInitialized));
    assert_eq!(d.get_pct(), Err(YieldError::NotInitialized));
}

#[test]
fn set_token_replaces_the_token() {
    let mut d = configured(1200);
    assert_eq!(d.get_token(), Ok(token()));
    assert_eq!(d.set_token(&admin(), Address::from_str("CNEXT")), Ok(()));
    assert_eq!(d.get_token(), Ok(Address::from_str("CNEXT")));
    assert_eq!(d.get_pct(), Ok(1200));
    assert_eq!(d.get_admin(), Ok(admin()));
}

#[test]
fn set_token_before_initialize_fails() {
    let mut d = YieldDistributor::new();
    assert_eq!(d.set_token(&admin(), token()), Err(YieldError::NotInitialized));
    assert_eq!(d.get_token(), Err(YieldError::NotInitialized));
}

#[test]
fn open_then_get_strategy() {
    let d = opened(1200, 500, 1_700_000_000);
    let s = d.get_strat(&owner()).unwrap();
    assert_eq!(s.status, StrategyStatus::Active);
    assert_eq!(s.expires_at - s.created_at, MATURITY_WINDOW);
    assert_eq!(s, expected(500, 1200, 1_700_000_000, StrategyStatus::Active));
}

#[test]
fn open_for_several_owners() {
    let mut d = opened(1200, 500, 100);
    assert_eq!(d.set_strat(&admin(), other(), 900, 200), Ok(()));
    assert_eq!(d.get_strat(&owner()), Ok(expected(500, 1200, 100, StrategyStatus::Active)));
    let s = d.get_strat(&other()).unwrap();
    assert_eq!(s.user, other());
    assert_eq!(s.amount, 900);
    assert_eq!(s.created_at, 200);
    assert_eq!(s.expires_at, 200 + MATURITY_WINDOW);
    assert_eq!(s.status, StrategyStatus::Active);
    assert_eq!(d.get_strat(&admin()), Err(YieldError::NotInitialized));
}

#[test]
fn open_needs_the_whole_configuration() {
    let mut d = YieldDistributor::new();
    assert_eq!(d.set_strat(&admin(), owner(), 500, 1), Err(YieldError::NotInitialized));
    assert_eq!(d.initialize(&admin(), admin()), Ok(()));
    assert_eq!(d.set_strat(&admin(), owner(), 500, 1), Err(YieldError::NotInitialized));
    assert_eq!(d.set_pct(&admin(), 1200), Ok(()));
    assert_eq!(d.set_strat(&admin(), owner(), 500, 1), Err(YieldError::NotInitialized));
    assert_eq!(d.get_strat(&owner()), Err(YieldError::NotInitialized));
    assert_eq!(d.set_token(&admin(), token()), Ok(()));
    assert_eq!(d.set_strat(&admin(), owner(), 500, 1), Ok(()));
    assert_eq!(d.get_strat(&owner()), Ok(expected(500, 1200, 1, StrategyStatus::Active)));
}

#[test]
fn open_needs_a_token_even_with_a_percentage_missing() {
    let mut d = YieldDistributor::new();
    assert_eq!(d.initialize(&admin(), admin()), Ok(()));
    assert_eq!(d.set_token(&admin(), token()), Ok(()));
    assert_eq!(d.set_strat(&admin(), owner(), 500, 1), Err(YieldError::NotInitialized));
    assert_eq!(d.get_strat(&owner()), Err(YieldError::NotInitialized));
}

#[test]
fn open_snapshots_the_configuration() {
    let mut d = opened(1200, 500, 100);
    assert_eq!(d.set_pct(&admin(), 2400), Ok(()));
    assert_eq!(d.set_token(&admin(), Address::from_str("CNEXT")), Ok(()));
    assert_eq!(d.get_strat(&owner()), Ok(expected(500, 1200, 100, StrategyStatus::Active)));
    assert_eq!(d.set_strat(&admin(), other(), 7, 300), Ok(()));
    let s = d.get_strat(&other()).unwrap();
    assert_eq!(s.pct, 2400);
    assert_eq!(s.token, Address::from_str("CNEXT"));
    assert_eq!(d.get_strat(&owner()), Ok(expected(500, 1200, 100, StrategyStatus::Active)));
}

#[test]
fn open_again_replaces_the_strategy() {
    let mut d = opened(1200, 500, 100);
    assert!(d.set_s_exp(&admin(), &owner()).is_ok());
    assert_eq!(d.get_strat(&owner()).unwrap().status, StrategyStatus::Expired);
    assert_eq!(d.set_strat(&admin(), owner(), 800, 900), Ok(()));
    assert_eq!(d.get_strat(&owner()), Ok(expected(800, 1200, 900, StrategyStatus::Active)));
}

#[test]
fn open_at_a_time_that_does_not_fit() {
    let mut d = configured(1200);
    assert_eq!(d.set_strat(&admin(), owner(), 500, u64::MAX), Err(YieldError::Overflow));
    assert_eq!(
        d.set_strat(&admin(), owner(), 500, u64::MAX - MATURITY_WINDOW + 1),
        Err(YieldError::Overflow)
    );
    assert_eq!(d.get_strat(&owner()), Err(YieldError::NotInitialized));
    assert_eq!(d.set_strat(&admin(), owner(), 500, u64::MAX - MATURITY_WINDOW), Ok(()));
    assert_eq!(d.get_strat(&owner()).unwrap().expires_at, u64::MAX);
}

#[test]
fn expire_mints_one_month_of_yield() {
    let mut d = opened(1200, 100_000, 100);
    assert_eq!(
        d.set_s_exp(&admin(), &owner()),
        Ok(TokenCall::Mint { token: token(), to: owner(), amount: 10_000_000, authorizer: admin() })
    );
    assert_eq!(d.get_strat(&owner()), Ok(expected(100_000, 1200, 100, StrategyStatus::Expired)));
}

#[test]
fn expire_truncates_the_monthly_rate() {
    let mut d = opened(1201, 100_000, 100);
    assert_eq!(
        d.set_s_exp(&admin(), &owner()),
        Ok(TokenCall::Mint { token: token(), to: owner(), amount: 10_000_000, authorizer: admin() })
    );
    let mut d = opened(11, 100_000, 100);
    assert_eq!(
        d.set_s_exp(&admin(), &owner()),
        Ok(TokenCall::Mint { token: token(), to: owner(), amount: 0, authorizer: admin() })
    );
    let mut d = opened(10000, 3, 100);
    assert_eq!(
        d.set_s_exp(&admin(), &owner()),
        Ok(TokenCall::Mint { token: token(), to: owner(), amount: 2499, authorizer: admin() })
    );
}

#[test]
fn expire_uses_the_strategy_snapshot() {
    let mut d = opened(1200, 100_000, 100);
    assert_eq!(d.set_pct(&admin(), 2400), Ok(()));
    assert_eq!(d.set_token(&admin(), Address::from_str("CNEXT")), Ok(()));
    assert_eq!(
        d.set_s_exp(&admin(), &owner()),
        Ok(TokenCall::Mint { token: token(), to: owner(), amount: 10_000_000, authorizer: admin() })
    );
}

#[test]
fn expire_only_once() {
    let mut d = opened(1200, 100_000, 100);
    assert!(d.set_s_exp(&admin(), &owner()).is_ok());
    assert_eq!(d.set_s_exp(&admin(), &owner()), Err(YieldError::InvalidStatus));
    assert_eq!(d.get_strat(&owner()), Ok(expected(100_000, 1200, 100, StrategyStatus::Expired)));
    assert_eq!(d.set_s_cmp(&admin(), &owner()), Ok(()));
    assert_eq!(d.set_s_exp(&admin(), &owner()), Err(YieldError::InvalidStatus));
    assert_eq!(d.get_strat(&owner()), Ok(expected(100_000, 1200, 100, StrategyStatus::Completed)));
}

#[test]
fn expire_without_a_strategy() {
    let mut d = configured(1200);
    assert_eq!(d.set_s_exp(&admin(), &owner()), Err(YieldError::NotInitialized));
    let mut d = YieldDistributor::new();
    assert_eq!(d.set_s_exp(&admin(), &owner()), Err(YieldError::NotInitialized));
}

#[test]
fn expire_with_a_yield_that_does_not_fit() {
    let mut d = opened(24, i128::MAX, 100);
    assert_eq!(d.set_s_exp(&admin(), &owner()), Err(YieldError::Overflow));
    assert_eq!(d.get_strat(&owner()), Ok(expected(i128::MAX, 24, 100, StrategyStatus::Active)));
    let mut d = opened(24, i128::MIN, 100);
    assert_eq!(d.set_s_exp(&admin(), &owner()), Err(YieldError::Overflow));
    let mut d = opened(12, i128::MAX, 100);
    assert_eq!(
        d.set_s_exp(&admin(), &owner()),
        Ok(TokenCall::Mint { token: token(), to: owner(), amount: i128::MAX, authorizer: admin() })
    );
}

#[test]
fn expire_with_a_negative_principal() {
    let mut d = opened(1200, -5, 100);
    assert_eq!(
        d.set_s_exp(&admin(), &owner()),
        Ok(TokenCall::Mint { token: token(), to: owner(), amount: -500, authorizer: admin() })
    );
}

#[test]
fn complete_before_expire_fails() {
    let mut d = opened(1200, 500, 100);
    assert_eq!(d.set_s_cmp(&admin(), &owner()), Err(YieldError::InvalidStatus));
    assert_eq!(d.get_strat(&owner()), Ok(expected(500, 1200, 100, StrategyStatus::Active)));
}

#[test]
fn complete_after_expire() {
    let mut d = opened(1200, 500, 100);
    assert!(d.set_s_exp(&admin(), &owner()).is_ok());
    assert_eq!(d.set_s_cmp(&admin(), &owner()), Ok(()));
    assert_eq!(d.get_strat(&owner()), Ok(expected(500, 1200, 100, StrategyStatus::Completed)));
}

#[test]
fn complete_twice_fails() {
    let mut d = opened(1200, 500, 100);
    assert!(d.set_s_exp(&admin(), &owner()).is_ok());
    assert_eq!(d.set_s_cmp(&admin(), &owner()), Ok(()));
    assert_eq!(d.set_s_cmp(&admin(), &owner()), Err(YieldError::InvalidStatus));
    assert_eq!(d.get_strat(&owner()), Ok(expected(500, 1200, 100, StrategyStatus::Completed)));
}

#[test]
fn complete_without_a_strategy() {
    let mut d = configured(1200);
    assert_eq!(d.set_s_cmp(&admin(), &owner()), Err(YieldError::NotInitialized));
}

#[test]
fn lifecycle_touches_one_owner_only() {
    let mut d = opened(1200, 500, 100);
    assert_eq!(d.set_strat(&admin(), other(), 900, 200), Ok(()));
    let before = d.get_strat(&other()).unwrap();
    assert!(d.set_s_exp(&admin(), &owner()).is_ok());
    assert_eq!(d.get_strat(&other()), Ok(before.clone()));
    assert_eq!(d.set_s_cmp(&admin(), &owner()), Ok(()));
    assert_eq!(d.get_strat(&other()), Ok(before));
    assert_eq!(d.get_admin(), Ok(admin()));
    assert_eq!(d.get_pct(), Ok(1200));
    assert_eq!(d.get_token(), Ok(token()));
}

#[test]
fn accrue_mints_to_the_owner() {
    let d = opened(1200, 500, 100);
    assert_eq!(
        d.accrue(&admin(), &owner(), 42),
        Ok(TokenCall::Mint { token: token(), to: owner(), amount: 42, authorizer: admin() })
    );
    assert_eq!(d.get_strat(&owner()), Ok(expected(500, 1200, 100, StrategyStatus::Active)));
}

#[test]
fn accrue_in_any_status() {
    let mut d = opened(1200, 500, 100);
    assert!(d.set_s_exp(&admin(), &owner()).is_ok());
    assert_eq!(
        d.accrue(&admin(), &owner(), 1),
        Ok(TokenCall::Mint { token: token(), to: owner(), amount: 1, authorizer: admin() })
    );
    assert_eq!(d.set_s_cmp(&admin(), &owner()), Ok(()));
    assert_eq!(
        d.accrue(&admin(), &owner(), 2),
        Ok(TokenCall::Mint { token: token(), to: owner(), amount: 2, authorizer: admin() })
    );
}

#[test]
fn accrue_without_a_strategy() {
    let d = configured(1200);
    assert_eq!(d.accrue(&admin(), &owner(), 42), Err(YieldError::InvalidStrategy));
    assert_eq!(d.get_strat(&owner()), Err(YieldError::NotInitialized));
    let d = opened(1200, 500, 100);
    assert_eq!(d.accrue(&admin(), &other(), 42), Err(YieldError::InvalidStrategy));
}

#[test]
fn accrue_before_initialize() {
    let d = YieldDistributor::new();
    assert_eq!(d.accrue(&admin(), &owner(), 42), Err(YieldError::NotInitialized));
}

#[test]
fn get_apy_asks_for_the_owner_balance() {
    let d = opened(1200, 500, 100);
    assert_eq!(d.get_apy(&owner()), Ok(BalanceQuery { token: token(), user: owner() }));
    assert_eq!(d.get_apy(&other()), Err(YieldError::NotInitialized));
}

#[test]
fn withdraw_right_after_open_fails() {
    let d = opened(1200, 500, 100);
    assert_eq!(d.begin_withdraw(&admin(), &owner()), Err(YieldError::InvalidStatus));
    assert_eq!(d.withdraw(&admin(), 1, &owner(), 1_000), Err(YieldError::InvalidStatus));
    assert_eq!(d.withdraw(&admin(), 1, &owner(), 0), Err(YieldError::InvalidStatus));
}

#[test]
fn withdraw_before_complete_fails() {
    let mut d = opened(1200, 500, 100);
    assert!(d.set_s_exp(&admin(), &owner()).is_ok());
    assert_eq!(d.begin_withdraw(&admin(), &owner()), Err(YieldError::InvalidStatus));
    assert_eq!(d.withdraw(&admin(), 1, &owner(), 1_000), Err(YieldError::InvalidStatus));
}

fn completed() -> YieldDistributor {
    let mut d = opened(1200, 500, 100);
    assert!(d.set_s_exp(&admin(), &owner()).is_ok());
    assert_eq!(d.set_s_cmp(&admin(), &owner()), Ok(()));
    d
}

#[test]
fn withdraw_burns_from_the_owner() {
    let d = completed();
    assert_eq!(
        d.begin_withdraw(&admin(), &owner()),
        Ok(BalanceQuery { token: token(), user: owner() })
    );
    assert_eq!(
        d.withdraw(&admin(), 40, &owner(), 50_000),
        Ok(TokenCall::Burn { token: token(), from: owner(), amount: 40, authorizer: admin() })
    );
    assert_eq!(d.get_strat(&owner()), Ok(expected(500, 1200, 100, StrategyStatus::Completed)));
}

#[test]
fn withdraw_needs_more_than_the_amount() {
    let d = completed();
    assert_eq!(d.withdraw(&admin(), 50, &owner(), 50), Err(YieldError::NotEnoughBalance));
    assert_eq!(d.withdraw(&admin(), 51, &owner(), 50), Err(YieldError::NotEnoughBalance));
    assert_eq!(d.withdraw(&admin(), 1, &owner(), 0), Err(YieldError::NotEnoughBalance));
    assert_eq!(d.withdraw(&admin(), i128::MAX, &owner(), i128::MAX), Err(YieldError::NotEnoughBalance));
    assert_eq!(
        d.withdraw(&admin(), 49, &owner(), 50),
        Ok(TokenCall::Burn { token: token(), from: owner(), amount: 49, authorizer: admin() })
    );
    assert_eq!(
        d.withdraw(&admin(), 0, &owner(), 1),
        Ok(TokenCall::Burn { token: token(), from: owner(), amount: 0, authorizer: admin() })
    );
}

#[test]
fn withdraw_without_a_strategy() {
    let d = configured(1200);
    assert_eq!(d.begin_withdraw(&admin(), &owner()), Err(YieldError::NotInitialized));
    assert_eq!(d.withdraw(&admin(), 1, &owner(), 10), Err(YieldError::NotInitialized));
    let d = YieldDistributor::new();
    assert_eq!(d.withdraw(&admin(), 1, &owner(), 10), Err(YieldError::NotInitialized));
}

#[test]
fn non_admin_gets_nothing_done() {
    let mut d = opened(1200, 500, 100);
    let intruder = other();
    assert_eq!(d.set_pct(&intruder, 5000), Err(YieldError::Unauthorized));
    assert_eq!(d.set_pct(&intruder, 0), Err(YieldError::Unauthorized));
    assert_eq!(d.set_token(&intruder, intruder.clone()), Err(YieldError::Unauthorized));
    assert_eq!(d.set_strat(&intruder, intruder.clone(), 1, 1), Err(YieldError::Unauthorized));
    assert_eq!(d.set_strat(&intruder, owner(), 1, 1), Err(YieldError::Unauthorized));
    assert_eq!(d.set_s_exp(&intruder, &owner()), Err(YieldError::Unauthorized));
    assert_eq!(d.set_s_cmp(&intruder, &owner()), Err(YieldError::Unauthorized));
    assert_eq!(d.accrue(&intruder, &owner(), 1), Err(YieldError::Unauthorized));
    assert_eq!(d.accrue(&intruder, &intruder, 1), Err(YieldError::Unauthorized));
    assert_eq!(d.begin_withdraw(&intruder, &owner()), Err(YieldError::Unauthorized));
    assert_eq!(d.withdraw(&intruder, 1, &owner(), 10), Err(YieldError::Unauthorized));
    assert_eq!(d.get_admin(), Ok(admin()));
    assert_eq!(d.get_pct(), Ok(1200));
    assert_eq!(d.get_token(), Ok(token()));
    assert_eq!(d.get_strat(&owner()), Ok(expected(500, 1200, 100, StrategyStatus::Active)));
    assert_eq!(d.get_strat(&intruder), Err(YieldError::NotInitialized));
}

#[test]
fn the_owner_is_no_admin() {
    let mut d = completed();
    assert_eq!(d.withdraw(&owner(), 1, &owner(), 10), Err(YieldError::Unauthorized));
    assert_eq!(d.set_s_exp(&owner(), &owner()), Err(YieldError::Unauthorized));
    assert_eq!(d.get_strat(&owner()), Ok(expected(500, 1200, 100, StrategyStatus::Completed)));
}

#[test]
fn reading_needs_no_admin() {
    let d = opened(1200, 500, 100);
    assert_eq!(d.get_strat(&owner()), Ok(expected(500, 1200, 100, StrategyStatus::Active)));
    assert_eq!(d.get_apy(&owner()), Ok(BalanceQuery { token: token(), user: owner() }));
}

#[test]
fn restore_brings_back_the_parts() {
    let strategy = expected(500, 1200, 100, StrategyStatus::Expired);
    let mut d =
        YieldDistributor::restore(Some(admin()), Some(2400), Some(token()), Some(strategy.clone())).unwrap();
    assert_eq!(d.get_admin(), Ok(admin()));
    assert_eq!(d.get_pct(), Ok(2400));
    assert_eq!(d.get_token(), Ok(token()));
    assert_eq!(d.get_strat(&owner()), Ok(strategy));
    assert_eq!(d.get_strat(&other()), Err(YieldError::NotInitialized));
    assert_eq!(d.set_s_cmp(&admin(), &owner()), Ok(()));
    assert_eq!(d.get_strat(&owner()), Ok(expected(500, 1200, 100, StrategyStatus::Completed)));
}

#[test]
fn restore_with_nothing_is_new() {
    let mut d = YieldDistributor::restore(None, None, None, None).unwrap();
    assert_eq!(d.get_admin(), Err(YieldError::NotInitialized));
    assert_eq!(d.get_pct(), Err(YieldError::NotInitialized));
    assert_eq!(d.get_token(), Err(YieldError::NotInitialized));
    assert_eq!(d.get_strat(&owner()), Err(YieldError::NotInitialized));
    assert_eq!(d.initialize(&admin(), admin()), Ok(()));
}

#[test]
fn restore_refuses_a_percentage_out_of_range() {
    assert_eq!(
        YieldDistributor::restore(Some(admin()), Some(0), Some(token()), None).err(),
        Some(YieldError::InvalidPercentage)
    );
    assert_eq!(
        YieldDistributor::restore(None, Some(10001), None, None).err(),
        Some(YieldError::InvalidPercentage)
    );
    assert!(YieldDistributor::restore(None, Some(1), None, None).is_ok());
    assert!(YieldDistributor::restore(None, Some(10000), None, None).is_ok());
}

#[test]
fn a_copy_goes_back_to_the_state_before() {
    let mut d = opened(1200, 100_000, 100);
    assert_eq!(d.set_strat(&admin(), other(), 5, 7), Ok(()));
    let before = d.clone();
    assert!(d.set_s_exp(&admin(), &owner()).is_ok());
    assert_eq!(d.get_strat(&owner()).unwrap().status, StrategyStatus::Expired);
    assert_eq!(before.get_strat(&owner()), Ok(expected(100_000, 1200, 100, StrategyStatus::Active)));
    assert_eq!(before.get_strat(&other()), d.get_strat(&other()));
    assert_eq!(before.get_admin(), Ok(admin()));
    assert_eq!(before.get_pct(), Ok(1200));
    assert_eq!(before.get_token(), Ok(token()));
    let mut d = before;
    assert_eq!(
        d.set_s_exp(&admin(), &owner()),
        Ok(TokenCall::Mint { token: token(), to: owner(), amount: 10_000_000, authorizer: admin() })
    );
}
