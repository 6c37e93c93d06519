use vstd::prelude::*;

verus! {

/// The identity of an account (its public key) or of a contract (its hash),
/// with the 256 bits split into two halves, most significant first.
#[derive(Clone, Copy, Debug, PartialEq, Eq, Structural)]
pub enum Address {
    Account { hi: u128, lo: u128 },
    Contract { hi: u128, lo: u128 },
}

/// Why the factory refuses a call.
#[derive(Clone, Copy, Debug, PartialEq, Eq, Structural)]
pub enum FactoryError {
    AlreadyInitialized,
    NotInitialized,
    Unauthorized,
    RecipientNotAllowlisted,
    DepositExceedsCap,
    DurationTooShort,
    /// The requested stream must end strictly after it starts.
    InvalidTimeRange,
    /// The requested cliff must be within the inclusive start/end window.
    InvalidCliff,
    /// The factory cap must be in the accepted range `1..=i128::MAX`.
    InvalidCap,
    /// The minimum duration must be in the accepted range
    /// `0..=MAX_MIN_DURATION_SECONDS` seconds.
    InvalidMinDuration,
}

impl FactoryError {
    /// The number under which the error is published to callers.
    pub open spec fn spec_code(self) -> u32 {
        match self {
            FactoryError::AlreadyInitialized => 1,
            FactoryError::NotInitialized => 2,
            FactoryError::Unauthorized => 3,
            FactoryError::RecipientNotAllowlisted => 4,
            FactoryError::DepositExceedsCap => 5,
            FactoryError::DurationTooShort => 6,
            FactoryError::InvalidTimeRange => 7,
            FactoryError::InvalidCliff => 8,
            FactoryError::InvalidCap => 9,
            FactoryError::InvalidMinDuration => 10,
        }
    }

    /// The number under which the error is published to callers.
    pub fn code(self) -> (code: u32)
        ensures
            code == self.spec_code(),
    {
        match self {
            FactoryError::AlreadyInitialized => 1,
            FactoryError::NotInitialized => 2,
            FactoryError::Unauthorized => 3,
            FactoryError::RecipientNotAllowlisted => 4,
            FactoryError::DepositExceedsCap => 5,
            FactoryError::DurationTooShort => 6,
            FactoryError::InvalidTimeRange => 7,
            FactoryError::InvalidCliff => 8,
            FactoryError::InvalidCap => 9,
            FactoryError::InvalidMinDuration => 10,
        }
    }
}

/// The keys under which the ledger holds the factory's entries.
#[derive(Clone, Copy, Debug, PartialEq, Eq, Structural)]
pub enum DataKey {
    Admin,
    StreamContract,
    MaxDepositCap,
    MinDuration,
    Allowlist(Address),
}

/// The part of the ledger in which an entry lives.
#[derive(Clone, Copy, Debug, PartialEq, Eq, Structural)]
pub enum Durability {
    /// With the contract instance itself.
    Instance,
    /// As a ledger entry of its own.
    Persistent,
}

/// What the ledger holds under a key.
#[derive(Clone, Copy, Debug, PartialEq, Eq, Structural)]
pub enum Entry {
    Address(Address),
    Amount(i128),
    Seconds(u64),
    Flag(bool),
}

impl DataKey {
    /// Allowlist entries are persistent, the policy lives with the instance.
    pub open spec fn spec_durability(self) -> Durability {
        if self is Allowlist {
            Durability::Persistent
        } else {
            Durability::Instance
        }
    }

    /// The part of the ledger in which the entry of this key lives.
    pub fn durability(self) -> (durability: Durability)
        ensures
            durability == self.spec_durability(),
    {
        match self {
            DataKey::Allowlist(_) => Durability::Persistent,
            _ => Durability::Instance,
        }
    }
}

/// Read-only snapshot of the factory policy.
#[derive(Clone, Copy, Debug, PartialEq, Eq, Structural)]
pub struct FactoryConfig {
    pub admin: Address,
    pub stream_contract: Address,
    pub max_deposit: i128,
    pub min_duration: u64,
}

/// How a stream releases its deposit. The factory creates linear streams only.
#[derive(Clone, Copy, Debug, PartialEq, Eq, Structural)]
pub enum StreamKind {
    Linear,
}

/// A call of `create_stream` on the contract at `stream_contract`.
#[derive(Debug, PartialEq, Eq)]
pub struct StreamCall {
    pub stream_contract: Address,
    pub sender: Address,
    pub recipient: Address,
    pub deposit_amount: i128,
    pub rate_per_second: i128,
    pub start_time: u64,
    pub cliff_time: u64,
    pub end_time: u64,
    pub withdraw_dust_threshold: i128,
    pub memo: Option<Vec<u8>>,
    pub kind: StreamKind,
}

/// What the host does next for a call that only the admin may make.
#[derive(Clone, Copy, Debug, PartialEq, Eq)]
pub enum AdminStep {
    /// Confirm that this address has authorized the call, abort the call
    /// otherwise, and make the call again with the address as confirmed.
    RequireAuth(Address),
    /// Answer the caller.
    Return(Result<(), FactoryError>),
}

/// What the host does next for a request to create a stream.
#[derive(Debug, PartialEq, Eq)]
pub enum CreateStep {
    /// Confirm that this address has authorized the call, abort the call
    /// otherwise, and make the call again with the address as confirmed.
    RequireAuth(Address),
    /// Call the stream contract, abort if it fails, and make the call again
    /// with the id that it returned.
    CallStream(StreamCall),
    /// Answer the caller.
    Return(Result<u64, FactoryError>),
}

} // verus!
