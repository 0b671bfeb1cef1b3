use vstd::prelude::*;

verus! {

/// Why an operation on the billing ledger was refused.
#[derive(Clone, Copy, Debug, PartialEq, Eq, PartialOrd, Ord, Hash, Structural)]
pub enum ContractError {
    AdminNotSet,
    NotAuthorized,
    SubscriptionNotFound,
    SubscriptionNotActive,
    BillingPeriodNotElapsed,
    InvalidBillingParameters,
    SubscriptionAlreadyTerminated,
}

impl ContractError {
    /// The numeric code under which the error is published (1 to 7, in declaration order).
    pub fn code(&self) -> (r: u32)
        ensures
            r == error_code(*self),
    {
        match self {
            ContractError::AdminNotSet => 1,
            ContractError::NotAuthorized => 2,
            ContractError::SubscriptionNotFound => 3,
            ContractError::SubscriptionNotActive => 4,
            ContractError::BillingPeriodNotElapsed => 5,
            ContractError::InvalidBillingParameters => 6,
            ContractError::SubscriptionAlreadyTerminated => 7,
        }
    }

    /// The error published under `code`, if any.
    pub fn from_code(code: u32) -> (r: Option<ContractError>)
        ensures
            r matches Some(e) ==> error_code(e) == code,
            r is None <==> !(1 <= code <= 7),
    {
        match code {
            1 => Some(ContractError::AdminNotSet),
            2 => Some(ContractError::NotAuthorized),
            3 => Some(ContractError::SubscriptionNotFound),
            4 => Some(ContractError::SubscriptionNotActive),
            5 => Some(ContractError::BillingPeriodNotElapsed),
            6 => Some(ContractError::InvalidBillingParameters),
            7 => Some(ContractError::SubscriptionAlreadyTerminated),
            _ => None,
        }
    }
}

/// The published code of each error.
pub open spec fn error_code(e: ContractError) -> u32 {
    match e {
        ContractError::AdminNotSet => 1,
        ContractError::NotAuthorized => 2,
        ContractError::SubscriptionNotFound => 3,
        ContractError::SubscriptionNotActive => 4,
        ContractError::BillingPeriodNotElapsed => 5,
        ContractError::InvalidBillingParameters => 6,
        ContractError::SubscriptionAlreadyTerminated => 7,
    }
}

} // verus!
