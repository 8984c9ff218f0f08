//! A per-user yield-accrual ledger.
//!
//! The ledger records, for each owner, a deposited principal, the yield
//! percentage and settlement token in force when the deposit was opened, a
//! maturity window and a lifecycle status. Every change is gated behind the
//! configured administrator. Yield is paid out, and withdrawals are burned,
//! on an external token ledger: the operations here decide what is owed and
//! hand back the [`TokenCall`] that the host has to carry out.
//!
//! What each operation does is specified in [`ledger`], over the ledger as a
//! mathematical value; [`laws`] holds what follows for every ledger.

pub mod address;
pub mod distributor;
pub mod error;
pub mod laws;
pub mod ledger;
pub mod store;
pub mod strategy;
pub mod token;

pub use address::Address;
pub use distributor::YieldDistributor;
pub use error::YieldError;
pub use ledger::{Ledger, MAX_PCT, MIN_PCT};
pub use store::StrategyStore;
pub use strategy::{Strategy, StrategyStatus, StrategyView, MATURITY_WINDOW, MONTHS};
pub use token::{BalanceQuery, BalanceQueryView, CustomTokenClient, TokenCall, TokenCallView};
