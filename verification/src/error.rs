//! The reasons for which an operation of the ledger is refused.

use vstd::prelude::*;

verus! {

/// Why an operation was refused. A refused operation changes nothing.
#[derive(Clone, Copy, Debug, PartialEq, Eq, Structural)]
pub enum YieldError {
    /// A configuration value or a strategy was read before it was set.
    NotInitialized,
    /// The administrator is already set.
    AlreadyInitialized,
    /// No manager is set.
    ManagerNotSet,
    /// The percentage lies outside `1..=10000`.
    InvalidPercentage,
    /// The strategy is not in the status that the operation needs.
    InvalidStatus,
    /// The balance does not exceed the amount to withdraw.
    NotEnoughBalance,
    /// The owner has no strategy.
    InvalidStrategy,
    /// The caller is not the identity whose authorization is required.
    Unauthorized,
    /// A maturity time or a yield does not fit its integer type.
    Overflow,
}

impl YieldError {
    /// The number under which the error is reported to the host.
    pub open spec fn spec_code(self) -> u32 {
        match self {
            YieldError::NotInitialized => 1,
            YieldError::AlreadyInitialized => 2,
            YieldError::ManagerNotSet => 3,
            YieldError::InvalidPercentage => 4,
            YieldError::InvalidStatus => 5,
            YieldError::NotEnoughBalance => 6,
            YieldError::InvalidStrategy => 7,
            YieldError::Unauthorized => 8,
            YieldError::Overflow => 9,
        }
    }

    /// The number under which the error is reported to the host.
    pub fn code(&self) -> (r: u32)
        ensures
            r == self.spec_code(),
    {
        match self {
            YieldError::NotInitialized => 1,
            YieldError::AlreadyInitialized => 2,
            YieldError::ManagerNotSet => 3,
            YieldError::InvalidPercentage => 4,
            YieldError::InvalidStatus => 5,
            YieldError::NotEnoughBalance => 6,
            YieldError::InvalidStrategy => 7,
            YieldError::Unauthorized => 8,
            YieldError::Overflow => 9,
        }
    }
}

} // verus!
