use vstd::prelude::*;

verus! {

/// An account on the ledger (a depositor, the admin, a beneficiary, a token
/// contract or the escrow itself), identified by a number.
#[derive(Clone, Copy, Debug, PartialEq, Eq, Structural, Hash)]
pub struct Address {
    pub id: u64,
}

/// The errors that the escrow operations report to their callers.
#[derive(Clone, Copy, Debug, PartialEq, Eq, Structural, Hash)]
pub enum Error {
    AlreadyInitialized,
    NotInitialized,
    BountyExists,
    BountyNotFound,
    FundsNotLocked,
    DeadlineNotPassed,
    Unauthorized,
    InvalidAmount,
    InvalidDeadline,
}

impl Error {
    /// The numeric code under which the ledger reports this error.
    pub fn code(&self) -> (r: u32)
        ensures
            1 <= r <= 9,
            r == error_code(*self),
    {
        match self {
            Error::AlreadyInitialized => 1,
            Error::NotInitialized => 2,
            Error::BountyExists => 3,
            Error::BountyNotFound => 4,
            Error::FundsNotLocked => 5,
            Error::DeadlineNotPassed => 6,
            Error::Unauthorized => 7,
            Error::InvalidAmount => 8,
            Error::InvalidDeadline => 9,
        }
    }
}

/// The numeric code of each error.
pub open spec fn error_code(e: Error) -> u32 {
    match e {
        Error::AlreadyInitialized => 1,
        Error::NotInitialized => 2,
        Error::BountyExists => 3,
        Error::BountyNotFound => 4,
        Error::FundsNotLocked => 5,
        Error::DeadlineNotPassed => 6,
        Error::Unauthorized => 7,
        Error::InvalidAmount => 8,
        Error::InvalidDeadline => 9,
    }
}

/// Where the funds of one escrow stand. `Released` and `Refunded` are final.
#[derive(Clone, Copy, Debug, PartialEq, Eq, Structural, Hash)]
pub enum EscrowStatus {
    Locked,
    Released,
    Refunded,
}

/// The record of one escrow, kept under its bounty id.
#[derive(Clone, Copy, Debug, PartialEq, Eq, Structural, Hash)]
pub struct Escrow {
    pub depositor: Address,
    pub amount: i128,
    pub status: EscrowStatus,
    pub deadline: u64,
}

/// The keys under which the contract keeps its data.
#[derive(Clone, Copy, Debug, PartialEq, Eq, Structural, Hash)]
pub enum DataKey {
    Admin,
    Token,
    Escrow(u64),
    ReentrancyGuard,
}

/// The one-time configuration: who may release funds, and which token
/// contract moves them.
#[derive(Clone, Copy, Debug, PartialEq, Eq, Structural, Hash)]
pub struct Config {
    pub admin: Address,
    pub token: Address,
}

/// A movement of `amount` units of `token` from `from` to `to`, which the
/// caller of an operation performs on the token contract once the operation
/// has committed its new state.
#[derive(Clone, Copy, Debug, PartialEq, Eq, Structural, Hash)]
pub struct Transfer {
    pub token: Address,
    pub from: Address,
    pub to: Address,
    pub amount: i128,
}

/// A balance to be read from the token contract: what `owner` holds of `token`.
#[derive(Clone, Copy, Debug, PartialEq, Eq, Structural, Hash)]
pub struct BalanceQuery {
    pub token: Address,
    pub owner: Address,
}

} // verus!
