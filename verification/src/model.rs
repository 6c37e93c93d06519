//! The factory as mathematics: its state, what each call does to it, and what
//! each call answers.

use vstd::prelude::*;

use crate::policy::{cap_check, min_duration_check, MAX_MIN_DURATION_SECONDS};
use crate::types::{
    Address, AdminStep, CreateStep, DataKey, Entry, FactoryConfig, FactoryError, StreamCall,
    StreamKind,
};

verus! {

/// What the ledger holds for the factory. A missing entry is `None`, a
/// recipient without an allowlist entry is outside `allowlist`.
#[verifier::ext_equal]
pub struct FactoryState {
    pub admin: Option<Address>,
    pub stream_contract: Option<Address>,
    pub max_deposit: Option<i128>,
    pub min_duration: Option<u64>,
    pub allowlist: Set<Address>,
}

/// The start, cliff and end of a stream, in ledger seconds.
pub struct Schedule {
    pub start_time: u64,
    pub cliff_time: u64,
    pub end_time: u64,
}

impl Schedule {
    /// The stream ends strictly after it starts.
    pub open spec fn is_range(self) -> bool {
        self.start_time < self.end_time
    }

    /// The cliff falls within the stream, both ends included.
    pub open spec fn has_cliff_inside(self) -> bool {
        self.start_time <= self.cliff_time <= self.end_time
    }

    /// How long the stream runs.
    pub open spec fn duration(self) -> int {
        self.end_time - self.start_time
    }
}

/// A call that may change the factory. `confirmed` is the address whose
/// authorization of the call the host has confirmed, if any.
pub enum Call {
    Init { admin: Address, stream_contract: Address, max_deposit: i128, min_duration: u64 },
    SetAdmin { confirmed: Option<Address>, new_admin: Address },
    SetStreamContract { confirmed: Option<Address>, new_stream_contract: Address },
    SetAllowlist { confirmed: Option<Address>, recipient: Address, allowed: bool },
    SetCap { confirmed: Option<Address>, max_deposit: i128 },
    SetMinDuration { confirmed: Option<Address>, min_duration: u64 },
}

impl Call {
    /// The address whose authorization has been confirmed; nobody's is asked
    /// for to initialize the factory.
    pub open spec fn confirmed(self) -> Option<Address> {
        match self {
            Call::Init { .. } => None,
            Call::SetAdmin { confirmed, .. } => confirmed,
            Call::SetStreamContract { confirmed, .. } => confirmed,
            Call::SetAllowlist { confirmed, .. } => confirmed,
            Call::SetCap { confirmed, .. } => confirmed,
            Call::SetMinDuration { confirmed, .. } => confirmed,
        }
    }

    /// The keys under which the call may write.
    pub open spec fn writes(self, key: DataKey) -> bool {
        match self {
            Call::Init { .. } => !(key is Allowlist),
            Call::SetAdmin { .. } => key is Admin,
            Call::SetStreamContract { .. } => key is StreamContract,
            Call::SetAllowlist { recipient, .. } => key == DataKey::Allowlist(recipient),
            Call::SetCap { .. } => key is MaxDepositCap,
            Call::SetMinDuration { .. } => key is MinDuration,
        }
    }
}

impl FactoryState {
    /// Nothing stored yet.
    pub open spec fn empty() -> FactoryState {
        FactoryState {
            admin: None,
            stream_contract: None,
            max_deposit: None,
            min_duration: None,
            allowlist: Set::empty(),
        }
    }

    /// What the ledger holds under `key`.
    pub open spec fn entry(self, key: DataKey) -> Option<Entry> {
        match key {
            DataKey::Admin => match self.admin {
                Some(admin) => Some(Entry::Address(admin)),
                None => None,
            },
            DataKey::StreamContract => match self.stream_contract {
                Some(stream_contract) => Some(Entry::Address(stream_contract)),
                None => None,
            },
            DataKey::MaxDepositCap => match self.max_deposit {
                Some(max_deposit) => Some(Entry::Amount(max_deposit)),
                None => None,
            },
            DataKey::MinDuration => match self.min_duration {
                Some(min_duration) => Some(Entry::Seconds(min_duration)),
                None => None,
            },
            DataKey::Allowlist(recipient) => if self.allowlist.contains(recipient) {
                Some(Entry::Flag(true))
            } else {
                None
            },
        }
    }

    /// Either nothing has been stored, or the whole policy has been and each
    /// part of it is in its accepted range.
    pub open spec fn coherent(self) -> bool {
        ||| self =~= FactoryState::empty()
        ||| {
            &&& self.admin is Some
            &&& self.stream_contract is Some
            &&& self.max_deposit matches Some(max_deposit) && max_deposit >= 1
            &&& self.min_duration matches Some(min_duration)
                && min_duration <= MAX_MIN_DURATION_SECONDS
        }
    }

    /// The admin, if there is one.
    pub open spec fn current_admin(self) -> Result<Address, FactoryError> {
        match self.admin {
            Some(admin) => Ok(admin),
            None => Err(FactoryError::NotInitialized),
        }
    }

    /// The policy, if all of it is stored.
    pub open spec fn config(self) -> Result<FactoryConfig, FactoryError> {
        match (self.admin, self.stream_contract, self.max_deposit, self.min_duration) {
            (Some(admin), Some(stream_contract), Some(max_deposit), Some(min_duration)) => Ok(
                FactoryConfig { admin, stream_contract, max_deposit, min_duration },
            ),
            _ => Err(FactoryError::NotInitialized),
        }
    }

    /// The answer to an initialization: only the first one counts, and only
    /// with a usable policy.
    pub open spec fn init_answer(self, max_deposit: i128, min_duration: u64) -> Result<
        (),
        FactoryError,
    > {
        if self.admin is Some {
            Err(FactoryError::AlreadyInitialized)
        } else if cap_check(max_deposit) is Err {
            cap_check(max_deposit)
        } else {
            min_duration_check(min_duration)
        }
    }

    /// The next step of a call that only the admin may make, where `checked`
    /// is what the call's argument is answered once the admin is confirmed.
    pub open spec fn admin_step(
        self,
        confirmed: Option<Address>,
        checked: Result<(), FactoryError>,
    ) -> AdminStep {
        match self.admin {
            None => AdminStep::Return(Err(FactoryError::NotInitialized)),
            Some(admin) => if confirmed == Some(admin) {
                AdminStep::Return(checked)
            } else {
                AdminStep::RequireAuth(admin)
            },
        }
    }

    /// Whether a call goes through, rather than being refused or left waiting
    /// for the admin's authorization.
    pub open spec fn accepts(self, call: Call) -> bool {
        match call {
            Call::Init { max_deposit, min_duration, .. } => self.init_answer(
                max_deposit,
                min_duration,
            ) is Ok,
            Call::SetCap { confirmed, max_deposit } => self.admin_step(
                confirmed,
                cap_check(max_deposit),
            ) == AdminStep::Return(Ok(())),
            Call::SetMinDuration { confirmed, min_duration } => self.admin_step(
                confirmed,
                min_duration_check(min_duration),
            ) == AdminStep::Return(Ok(())),
            _ => self.admin_step(call.confirmed(), Ok(())) == AdminStep::Return(Ok(())),
        }
    }

    /// The state after a call. One that does not go through changes nothing.
    pub open spec fn after(self, call: Call) -> FactoryState {
        if !self.accepts(call) {
            self
        } else {
            match call {
                Call::Init { admin, stream_contract, max_deposit, min_duration } => FactoryState {
                    admin: Some(admin),
                    stream_contract: Some(stream_contract),
                    max_deposit: Some(max_deposit),
                    min_duration: Some(min_duration),
                    allowlist: self.allowlist,
                },
                Call::SetAdmin { new_admin, .. } => FactoryState {
                    admin: Some(new_admin),
                    ..self
                },
                Call::SetStreamContract { new_stream_contract, .. } => FactoryState {
                    stream_contract: Some(new_stream_contract),
                    ..self
                },
                Call::SetAllowlist { recipient, allowed, .. } => FactoryState {
                    allowlist: if allowed {
                        self.allowlist.insert(recipient)
                    } else {
                        self.allowlist.remove(recipient)
                    },
                    ..self
                },
                Call::SetCap { max_deposit, .. } => FactoryState {
                    max_deposit: Some(max_deposit),
                    ..self
                },
                Call::SetMinDuration { min_duration, .. } => FactoryState {
                    min_duration: Some(min_duration),
                    ..self
                },
            }
        }
    }

    /// The state after a history of calls, made one after the other.
    pub open spec fn after_all(self, calls: Seq<Call>) -> FactoryState
        decreases calls.len(),
    {
        if calls.len() == 0 {
            self
        } else {
            self.after_all(calls.drop_last()).after(calls.last())
        }
    }

    /// What the treasury policy says of a stream: who may receive it, how much
    /// it may hold, and when it may run.
    pub open spec fn policy_check(
        self,
        recipient: Address,
        deposit_amount: i128,
        schedule: Schedule,
    ) -> Result<(), FactoryError> {
        if !self.allowlist.contains(recipient) {
            Err(FactoryError::RecipientNotAllowlisted)
        } else if self.max_deposit is None {
            Err(FactoryError::NotInitialized)
        } else if deposit_amount > self.max_deposit->0 {
            Err(FactoryError::DepositExceedsCap)
        } else if !schedule.is_range() {
            Err(FactoryError::InvalidTimeRange)
        } else if !schedule.has_cliff_inside() {
            Err(FactoryError::InvalidCliff)
        } else if self.min_duration is None {
            Err(FactoryError::NotInitialized)
        } else if schedule.duration() < self.min_duration->0 {
            Err(FactoryError::DurationTooShort)
        } else {
            Ok(())
        }
    }

    /// The next step of a request to create a stream. The sender is asked only
    /// for what the policy allows, and the stream contract is called only for
    /// a sender who is confirmed.
    pub open spec fn create_step(
        self,
        confirmed: Option<Address>,
        stream_id: Option<u64>,
        sender: Address,
        recipient: Address,
        deposit_amount: i128,
        rate_per_second: i128,
        schedule: Schedule,
        withdraw_dust_threshold: i128,
    ) -> CreateStep {
        match self.policy_check(recipient, deposit_amount, schedule) {
            Err(error) => CreateStep::Return(Err(error)),
            Ok(_) => if confirmed != Some(sender) {
                CreateStep::RequireAuth(sender)
            } else {
                match (self.stream_contract, stream_id) {
                    (None, _) => CreateStep::Return(Err(FactoryError::NotInitialized)),
                    (Some(_), Some(stream_id)) => CreateStep::Return(Ok(stream_id)),
                    (Some(stream_contract), None) => CreateStep::CallStream(
                        StreamCall {
                            stream_contract,
                            sender,
                            recipient,
                            deposit_amount,
                            rate_per_second,
                            start_time: schedule.start_time,
                            cliff_time: schedule.cliff_time,
                            end_time: schedule.end_time,
                            withdraw_dust_threshold,
                            memo: None,
                            kind: StreamKind::Linear,
                        },
                    ),
                }
            },
        }
    }
}

} // verus!
