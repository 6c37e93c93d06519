use vstd::prelude::*;

use crate::model::{Call, FactoryState, Schedule};
use crate::policy::{cap_check, min_duration_check, validate_cap, validate_min_duration};
use crate::types::{
    Address, AdminStep, CreateStep, DataKey, Entry, FactoryConfig, FactoryError, StreamCall,
    StreamKind,
};

verus! {

/// The factory's ledger entries, as far as the call at hand needs them.
///
/// A call reads and writes no allowlist entry but that of its own recipient,
/// so the host may leave the others out.
pub struct FluxoraFactory {
    admin: Option<Address>,
    stream_contract: Option<Address>,
    max_deposit: Option<i128>,
    min_duration: Option<u64>,
    allowlist: Vec<Address>,
}

impl View for FluxoraFactory {
    type V = FactoryState;

    closed spec fn view(&self) -> FactoryState {
        FactoryState {
            admin: self.admin,
            stream_contract: self.stream_contract,
            max_deposit: self.max_deposit,
            min_duration: self.min_duration,
            allowlist: self.allowlist@.to_set(),
        }
    }
}

/// Whether `address` is among `addresses`.
fn includes(addresses: &Vec<Address>, address: Address) -> (found: bool)
    ensures
        found == addresses@.contains(address),
{
    for i in 0..addresses.len()
        invariant
            forall|j: int| 0 <= j < i ==> addresses@[j] != address,
    {
        if addresses[i] == address {
            return true;
        }
    }
    false
}

/// The addresses other than `address`.
fn without(addresses: &Vec<Address>, address: Address) -> (rest: Vec<Address>)
    ensures
        rest@.to_set() == addresses@.to_set().remove(address),
{
    let mut rest: Vec<Address> = Vec::new();
    for i in 0..addresses.len()
        invariant
            rest@.to_set() == addresses@.take(i as int).to_set().remove(address),
    {
        let ghost before = rest@;
        let next = addresses[i];
        if next != address {
            rest.push(next);
        }
        proof {
            assert(addresses@.take(i + 1) =~= addresses@.take(i as int).push(next));
            lemma_push_to_set(addresses@.take(i as int), next);
            lemma_push_to_set(before, next);
            assert(rest@.to_set() =~= addresses@.take(i + 1).to_set().remove(address));
        }
    }
    assert(addresses@.take(addresses@.len() as int) =~= addresses@);
    rest
}

/// What a sequence contains after a push.
proof fn lemma_push_contains<A>(items: Seq<A>, item: A)
    ensures
        forall|a: A| #[trigger] items.push(item).contains(a) <==> items.contains(a) || a == item,
{
    assert forall|a: A| items.contains(a) || a == item implies #[trigger] items.push(
        item,
    ).contains(a) by {
        if a == item {
            assert(items.push(item)[items.len() as int] == a);
        } else {
            assert(items.push(item)[items.index_of(a)] == a);
        }
    }
}

proof fn lemma_push_to_set(addresses: Seq<Address>, address: Address)
    ensures
        addresses.push(address).to_set() == addresses.to_set().insert(address),
{
    lemma_push_contains(addresses, address);
    assert(addresses.push(address).to_set() =~= addresses.to_set().insert(address));
}

impl FluxoraFactory {
    /// A factory of which nothing is stored yet.
    pub fn new() -> (factory: FluxoraFactory)
        ensures
            factory@ == FactoryState::empty(),
    {
        let factory = FluxoraFactory {
            admin: None,
            stream_contract: None,
            max_deposit: None,
            min_duration: None,
            allowlist: Vec::new(),
        };
        assert(factory@ =~= FactoryState::empty());
        factory
    }

    /// The factory whose stored entries are these. `allowlist` holds what is
    /// stored for each recipient that has been looked up; a recipient without
    /// an entry is not allowed.
    pub fn restore(
        admin: Option<Address>,
        stream_contract: Option<Address>,
        max_deposit: Option<i128>,
        min_duration: Option<u64>,
        allowlist: Vec<(Address, Option<bool>)>,
    ) -> (factory: FluxoraFactory)
        ensures
            factory@.admin == admin,
            factory@.stream_contract == stream_contract,
            factory@.max_deposit == max_deposit,
            factory@.min_duration == min_duration,
            forall|recipient: Address| #[trigger]
                factory@.allowlist.contains(recipient) <==> allowlist@.contains(
                    (recipient, Some(true)),
                ),
    {
        let mut allowed: Vec<Address> = Vec::new();
        for i in 0..allowlist.len()
            invariant
                forall|known: Address| #[trigger]
                    allowed@.contains(known) <==> allowlist@.take(i as int).contains(
                        (known, Some(true)),
                    ),
        {
            let ghost before = allowed@;
            let (recipient, entry) = allowlist[i];
            if let Some(true) = entry {
                allowed.push(recipient);
            }
            proof {
                assert(allowlist@.take(i + 1) =~= allowlist@.take(i as int).push(
                    (recipient, entry),
                ));
                lemma_push_contains(allowlist@.take(i as int), (recipient, entry));
                lemma_push_contains(before, recipient);
                assert forall|known: Address| #[trigger]
                    allowed@.contains(known) <==> allowlist@.take(i + 1).contains(
                        (known, Some(true)),
                    ) by {
                    assert(before.contains(known) <==> allowlist@.take(i as int).contains(
                        (known, Some(true)),
                    ));
                }
            }
        }
        assert(allowlist@.take(allowlist@.len() as int) =~= allowlist@);
        FluxoraFactory { admin, stream_contract, max_deposit, min_duration, allowlist: allowed }
    }

    /// What is to be stored under `key`; no entry where there is none.
    pub fn entry(&self, key: DataKey) -> (entry: Option<Entry>)
        ensures
            entry == self@.entry(key),
    {
        match key {
            DataKey::Admin => match self.admin {
                Some(admin) => Some(Entry::Address(admin)),
                None => None,
            },
            DataKey::StreamContract => match self.stream_contract {
                Some(stream_contract) => Some(Entry::Address(stream_contract)),
                None => None,
            },
            DataKey::MaxDepositCap => match self.max_deposit {
                Some(max_deposit) => Some(Entry::Amount(max_deposit)),
                None => None,
            },
            DataKey::MinDuration => match self.min_duration {
                Some(min_duration) => Some(Entry::Seconds(min_duration)),
                None => None,
            },
            DataKey::Allowlist(recipient) => if self.is_allowlisted(recipient) {
                Some(Entry::Flag(true))
            } else {
                None
            },
        }
    }

    /// Initialize the factory with admin, stream contract, and policies.
    ///
    /// Accepted policy ranges:
    /// - `max_deposit`: `1..=i128::MAX` (`FactoryError::InvalidCap` otherwise).
    /// - `min_duration`: `0..=MAX_MIN_DURATION_SECONDS` seconds
    ///   (`FactoryError::InvalidMinDuration` otherwise).
    pub fn init(
        &mut self,
        admin: Address,
        stream_contract: Address,
        max_deposit: i128,
        min_duration: u64,
    ) -> (answer: Result<(), FactoryError>)
        ensures
            answer == old(self)@.init_answer(max_deposit, min_duration),
            final(self)@ == old(self)@.after(
                Call::Init { admin, stream_contract, max_deposit, min_duration },
            ),
    {
        if self.admin.is_some() {
            return Err(FactoryError::AlreadyInitialized);
        }
        validate_cap(max_deposit)?;
        validate_min_duration(min_duration)?;
        self.admin = Some(admin);
        self.stream_contract = Some(stream_contract);
        self.max_deposit = Some(max_deposit);
        self.min_duration = Some(min_duration);
        Ok(())
    }

    /// The admin, whose authorization every change of the policy needs.
    ///
    /// This is the single authorization chokepoint of the setters: before
    /// initialization there is nobody to ask.
    pub fn require_admin(&self) -> (admin: Result<Address, FactoryError>)
        ensures
            admin == self@.current_admin(),
    {
        match self.admin {
            Some(admin) => Ok(admin),
            None => Err(FactoryError::NotInitialized),
        }
    }

    /// The step that a setter owes before it may do its work: none where the
    /// admin is confirmed.
    fn authorize(&self, confirmed: Option<Address>) -> (owed: Option<AdminStep>)
        ensures
            match owed {
                None => self@.admin is Some && confirmed == self@.admin,
                Some(step) => !(self@.admin is Some && confirmed == self@.admin) && (forall|
                    checked: Result<(), FactoryError>,
                | #[trigger]
                    self@.admin_step(confirmed, checked) == step),
            },
    {
        match self.require_admin() {
            Err(error) => Some(AdminStep::Return(Err(error))),
            Ok(admin) => {
                let known = match confirmed {
                    Some(by) => by == admin,
                    None => false,
                };
                if known {
                    None
                } else {
                    Some(AdminStep::RequireAuth(admin))
                }
            },
        }
    }

    /// Admin updates the factory admin.
    pub fn set_admin(&mut self, confirmed: Option<Address>, new_admin: Address) -> (step: AdminStep)
        ensures
            step == old(self)@.admin_step(confirmed, Ok(())),
            final(self)@ == old(self)@.after(Call::SetAdmin { confirmed, new_admin }),
    {
        if let Some(owed) = self.authorize(confirmed) {
            return owed;
        }
        self.admin = Some(new_admin);
        AdminStep::Return(Ok(()))
    }

    /// Admin updates the stream contract address.
    pub fn set_stream_contract(
        &mut self,
        confirmed: Option<Address>,
        new_stream_contract: Address,
    ) -> (step: AdminStep)
        ensures
            step == old(self)@.admin_step(confirmed, Ok(())),
            final(self)@ == old(self)@.after(
                Call::SetStreamContract { confirmed, new_stream_contract },
            ),
    {
        if let Some(owed) = self.authorize(confirmed) {
            return owed;
        }
        self.stream_contract = Some(new_stream_contract);
        AdminStep::Return(Ok(()))
    }

    /// Admin adds or removes a recipient from the allowlist.
    pub fn set_allowlist(
        &mut self,
        confirmed: Option<Address>,
        recipient: Address,
        allowed: bool,
    ) -> (step: AdminStep)
        ensures
            step == old(self)@.admin_step(confirmed, Ok(())),
            final(self)@ == old(self)@.after(
                Call::SetAllowlist { confirmed, recipient, allowed },
            ),
    {
        if let Some(owed) = self.authorize(confirmed) {
            return owed;
        }
        if !allowed {
            self.allowlist = without(&self.allowlist, recipient);
        } else if !includes(&self.allowlist, recipient) {
            proof {
                lemma_push_to_set(self.allowlist@, recipient);
            }
            self.allowlist.push(recipient);
        } else {
            assert(self.allowlist@.to_set().insert(recipient) =~= self.allowlist@.to_set());
        }
        AdminStep::Return(Ok(()))
    }

    /// Admin updates the max deposit cap.
    ///
    /// Accepted range: `1..=i128::MAX`. Non-positive values return
    /// `FactoryError::InvalidCap` and leave the stored cap unchanged.
    pub fn set_cap(&mut self, confirmed: Option<Address>, max_deposit: i128) -> (step: AdminStep)
        ensures
            step == old(self)@.admin_step(confirmed, cap_check(max_deposit)),
            final(self)@ == old(self)@.after(Call::SetCap { confirmed, max_deposit }),
    {
        if let Some(owed) = self.authorize(confirmed) {
            return owed;
        }
        if let Err(error) = validate_cap(max_deposit) {
            return AdminStep::Return(Err(error));
        }
        self.max_deposit = Some(max_deposit);
        AdminStep::Return(Ok(()))
    }

    /// Admin updates the minimum stream duration.
    ///
    /// Accepted range: `0..=MAX_MIN_DURATION_SECONDS` seconds. A value of `0`
    /// disables any additional factory-level minimum duration; values above the
    /// ceiling return `FactoryError::InvalidMinDuration` and leave the stored
    /// policy unchanged.
    pub fn set_min_duration(&mut self, confirmed: Option<Address>, min_duration: u64) -> (step:
        AdminStep)
        ensures
            step == old(self)@.admin_step(confirmed, min_duration_check(min_duration)),
            final(self)@ == old(self)@.after(Call::SetMinDuration { confirmed, min_duration }),
    {
        if let Some(owed) = self.authorize(confirmed) {
            return owed;
        }
        if let Err(error) = validate_min_duration(min_duration) {
            return AdminStep::Return(Err(error));
        }
        self.min_duration = Some(min_duration);
        AdminStep::Return(Ok(()))
    }

    /// Return the current factory policy configuration.
    pub fn get_factory_config(&self) -> (config: Result<FactoryConfig, FactoryError>)
        ensures
            config == self@.config(),
    {
        match (self.admin, self.stream_contract, self.max_deposit, self.min_duration) {
            (Some(admin), Some(stream_contract), Some(max_deposit), Some(min_duration)) => Ok(
                FactoryConfig { admin, stream_contract, max_deposit, min_duration },
            ),
            _ => Err(FactoryError::NotInitialized),
        }
    }

    /// Return whether `recipient` is currently allowlisted for factory-created streams.
    pub fn is_allowlisted(&self, recipient: Address) -> (allowed: bool)
        ensures
            allowed == self@.allowlist.contains(recipient),
    {
        includes(&self.allowlist, recipient)
    }

    /// Enforce the treasury policies on a stream.
    ///
    /// The time rules of the stream contract are among them, so that an invalid
    /// schedule is answered with an error of the factory before the stream
    /// contract is called.
    fn enforce_policies(
        &self,
        recipient: Address,
        deposit_amount: i128,
        start_time: u64,
        cliff_time: u64,
        end_time: u64,
    ) -> (checked: Result<(), FactoryError>)
        ensures
            checked == self@.policy_check(
                recipient,
                deposit_amount,
                Schedule { start_time, cliff_time, end_time },
            ),
    {
        if !self.is_allowlisted(recipient) {
            return Err(FactoryError::RecipientNotAllowlisted);
        }
        let max_deposit = match self.max_deposit {
            Some(max_deposit) => max_deposit,
            None => return Err(FactoryError::NotInitialized),
        };
        if deposit_amount > max_deposit {
            return Err(FactoryError::DepositExceedsCap);
        }
        if start_time >= end_time {
            return Err(FactoryError::InvalidTimeRange);
        }
        if cliff_time < start_time || cliff_time > end_time {
            return Err(FactoryError::InvalidCliff);
        }
        let min_duration = match self.min_duration {
            Some(min_duration) => min_duration,
            None => return Err(FactoryError::NotInitialized),
        };
        let duration: u64 = end_time - start_time;
        if duration < min_duration {
            return Err(FactoryError::DurationTooShort);
        }
        Ok(())
    }

    /// Creates a new stream via the stream contract after enforcing treasury policies.
    ///
    /// The sender has to authorize the request because the stream contract is
    /// called with this sender. `confirmed` is the address whose authorization
    /// the host has confirmed so far, and `stream_id` what the stream contract
    /// has returned, if it has been called.
    pub fn create_stream(
        &self,
        confirmed: Option<Address>,
        stream_id: Option<u64>,
        sender: Address,
        recipient: Address,
        deposit_amount: i128,
        rate_per_second: i128,
        start_time: u64,
        cliff_time: u64,
        end_time: u64,
        withdraw_dust_threshold: i128,
    ) -> (step: CreateStep)
        ensures
            step == self@.create_step(
                confirmed,
                stream_id,
                sender,
                recipient,
                deposit_amount,
                rate_per_second,
                Schedule { start_time, cliff_time, end_time },
                withdraw_dust_threshold,
            ),
    {
        if let Err(error) = self.enforce_policies(
            recipient,
            deposit_amount,
            start_time,
            cliff_time,
            end_time,
        ) {
            return CreateStep::Return(Err(error));
        }
        let known = match confirmed {
            Some(by) => by == sender,
            None => false,
        };
        if !known {
            return CreateStep::RequireAuth(sender);
        }
        let stream_contract = match self.stream_contract {
            Some(stream_contract) => stream_contract,
            None => return CreateStep::Return(Err(FactoryError::NotInitialized)),
        };
        match stream_id {
            Some(stream_id) => CreateStep::Return(Ok(stream_id)),
            None => CreateStep::CallStream(
                StreamCall {
                    stream_contract,
                    sender,
                    recipient,
                    deposit_amount,
                    rate_per_second,
                    start_time,
                    cliff_time,
                    end_time,
                    withdraw_dust_threshold,
                    memo: None,
                    kind: StreamKind::Linear,
                },
            ),
        }
    }
}

} // verus!
