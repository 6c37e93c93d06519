//! What holds of the factory as a whole.

use vstd::prelude::*;

use crate::model::{Call, FactoryState, Schedule};
use crate::policy::{cap_check, min_duration_check, MAX_MIN_DURATION_SECONDS};
use crate::types::{
    Address, AdminStep, CreateStep, DataKey, Durability, Entry, FactoryConfig, FactoryError,
    StreamCall, StreamKind,
};

verus! {

/// A coherent factory stays coherent, whatever call is made.
pub proof fn law_call_keeps_coherent(state: FactoryState, call: Call)
    requires
        state.coherent(),
    ensures
        state.after(call).coherent(),
{
}

/// Whatever history of calls a new factory has seen, either nothing is stored
/// or the whole policy is, with each part in its accepted range.
pub proof fn law_every_history_is_coherent(calls: Seq<Call>)
    ensures
        FactoryState::empty().after_all(calls).coherent(),
    decreases calls.len(),
{
    if calls.len() > 0 {
        law_every_history_is_coherent(calls.drop_last());
        law_call_keeps_coherent(
            FactoryState::empty().after_all(calls.drop_last()),
            calls.last(),
        );
    }
}

/// A factory is initialized once and for all: whatever calls follow, it keeps
/// an admin, and another initialization is refused and changes nothing.
pub proof fn law_initialized_once(
    state: FactoryState,
    calls: Seq<Call>,
    admin: Address,
    stream_contract: Address,
    max_deposit: i128,
    min_duration: u64,
)
    requires
        state.admin is Some,
    ensures
        state.after_all(calls).admin is Some,
        state.after_all(calls).init_answer(max_deposit, min_duration) == Err::<(), FactoryError>(
            FactoryError::AlreadyInitialized,
        ),
        state.after_all(calls).after(
            Call::Init { admin, stream_contract, max_deposit, min_duration },
        ) == state.after_all(calls),
    decreases calls.len(),
{
    if calls.len() > 0 {
        law_initialized_once(
            state,
            calls.drop_last(),
            admin,
            stream_contract,
            max_deposit,
            min_duration,
        );
    }
}

/// An initialized factory changes only through a call that its current admin
/// is confirmed to have authorized.
pub proof fn law_only_the_admin_changes_the_factory(state: FactoryState, call: Call)
    requires
        state.admin is Some,
        state.after(call) != state,
    ensures
        call.confirmed() == state.admin,
        !(call is Init),
{
}

/// Calls that the admin has not authorized change nothing, however many there
/// are.
pub proof fn law_outsiders_change_nothing(state: FactoryState, calls: Seq<Call>)
    requires
        state.admin is Some,
        forall|i: int| 0 <= i < calls.len() ==> (#[trigger] calls[i]).confirmed() != state.admin,
    ensures
        state.after_all(calls) == state,
    decreases calls.len(),
{
    if calls.len() > 0 {
        let earlier = calls.drop_last();
        assert forall|i: int| 0 <= i < earlier.len() implies (#[trigger] earlier[i]).confirmed()
            != state.admin by {
            assert(earlier[i] == calls[i]);
        }
        law_outsiders_change_nothing(state, earlier);
        assert(calls.last() == calls[calls.len() - 1]);
    }
}

/// The admin's authorization is asked for before an argument is looked at: a
/// setter says nothing of its argument to anybody else.
pub proof fn law_authority_comes_first(
    state: FactoryState,
    confirmed: Option<Address>,
    admin: Address,
    checked: Result<(), FactoryError>,
)
    requires
        state.admin == Some(admin),
        confirmed != Some(admin),
    ensures
        state.admin_step(confirmed, checked) == AdminStep::RequireAuth(admin),
{
}

/// Once the admin is confirmed, a setter is done: it answers what its argument
/// is due, and asks for nothing more.
pub proof fn law_confirmed_admin_is_answered(
    state: FactoryState,
    admin: Address,
    checked: Result<(), FactoryError>,
)
    requires
        state.admin == Some(admin),
    ensures
        state.admin_step(Some(admin), checked) == AdminStep::Return(checked),
{
}

/// A refused call leaves everything as it was.
pub proof fn law_refusals_change_nothing(
    state: FactoryState,
    confirmed: Option<Address>,
    admin: Address,
    stream_contract: Address,
    max_deposit: i128,
    min_duration: u64,
)
    ensures
        state.init_answer(max_deposit, min_duration) is Err ==> state.after(
            Call::Init { admin, stream_contract, max_deposit, min_duration },
        ) == state,
        cap_check(max_deposit) is Err ==> state.after(Call::SetCap { confirmed, max_deposit })
            == state,
        min_duration_check(min_duration) is Err ==> state.after(
            Call::SetMinDuration { confirmed, min_duration },
        ) == state,
{
}

/// A successful initialization is what the configuration then shows.
pub proof fn law_init_reads_back(
    state: FactoryState,
    admin: Address,
    stream_contract: Address,
    max_deposit: i128,
    min_duration: u64,
)
    requires
        state.init_answer(max_deposit, min_duration) is Ok,
    ensures
        state.after(Call::Init { admin, stream_contract, max_deposit, min_duration }).config()
            == Ok::<FactoryConfig, FactoryError>(
            FactoryConfig { admin, stream_contract, max_deposit, min_duration },
        ),
        state.after(Call::Init { admin, stream_contract, max_deposit, min_duration }).allowlist
            == state.allowlist,
{
}

/// What the admin sets is what the configuration then shows, with the rest of
/// it and the allowlist unchanged.
pub proof fn law_setters_read_back(
    state: FactoryState,
    config: FactoryConfig,
    new_admin: Address,
    new_stream_contract: Address,
    max_deposit: i128,
    min_duration: u64,
)
    requires
        state.config() == Ok::<FactoryConfig, FactoryError>(config),
    ensures
        ({
            let confirmed = Some(config.admin);
            let to_admin = state.after(Call::SetAdmin { confirmed, new_admin });
            let to_contract = state.after(
                Call::SetStreamContract { confirmed, new_stream_contract },
            );
            let to_cap = state.after(Call::SetCap { confirmed, max_deposit });
            let to_duration = state.after(Call::SetMinDuration { confirmed, min_duration });
            &&& to_admin.config() == Ok::<FactoryConfig, FactoryError>(
                FactoryConfig { admin: new_admin, ..config },
            )
            &&& to_contract.config() == Ok::<FactoryConfig, FactoryError>(
                FactoryConfig { stream_contract: new_stream_contract, ..config },
            )
            &&& max_deposit >= 1 ==> to_cap.config() == Ok::<FactoryConfig, FactoryError>(
                FactoryConfig { max_deposit, ..config },
            )
            &&& min_duration <= MAX_MIN_DURATION_SECONDS ==> to_duration.config() == Ok::<
                FactoryConfig,
                FactoryError,
            >(FactoryConfig { min_duration, ..config })
            &&& to_admin.allowlist == state.allowlist
            &&& to_contract.allowlist == state.allowlist
            &&& to_cap.allowlist == state.allowlist
            &&& to_duration.allowlist == state.allowlist
        }),
{
}

/// What the admin says of a recipient is what the allowlist then shows, and
/// nothing else changes.
pub proof fn law_allowlist_reads_back(
    state: FactoryState,
    admin: Address,
    recipient: Address,
    allowed: bool,
    other: Address,
)
    requires
        state.admin == Some(admin),
        other != recipient,
    ensures
        ({
            let then = state.after(
                Call::SetAllowlist { confirmed: Some(admin), recipient, allowed },
            );
            &&& then.allowlist.contains(recipient) == allowed
            &&& then.allowlist.contains(other) == state.allowlist.contains(other)
            &&& then.config() == state.config()
        }),
{
}

/// Saying the same of a recipient twice is saying it once, and removing a
/// recipient who has just been added undoes the addition.
pub proof fn law_allowlist_is_a_set(
    state: FactoryState,
    admin: Address,
    recipient: Address,
    allowed: bool,
)
    requires
        state.admin == Some(admin),
    ensures
        ({
            let confirmed = Some(admin);
            let once = state.after(Call::SetAllowlist { confirmed, recipient, allowed });
            once.after(Call::SetAllowlist { confirmed, recipient, allowed }) == once
        }),
        !state.allowlist.contains(recipient) ==> ({
            let confirmed = Some(admin);
            let added = state.after(Call::SetAllowlist { confirmed, recipient, allowed: true });
            added.after(Call::SetAllowlist { confirmed, recipient, allowed: false }) == state
        }),
{
    let confirmed = Some(admin);
    let once = state.after(Call::SetAllowlist { confirmed, recipient, allowed });
    assert(once.after(Call::SetAllowlist { confirmed, recipient, allowed }) =~= once);
    let added = state.after(Call::SetAllowlist { confirmed, recipient, allowed: true });
    if !state.allowlist.contains(recipient) {
        assert(added.after(Call::SetAllowlist { confirmed, recipient, allowed: false }) =~= state);
    }
}

/// An admin who has handed over has no say any more: the new admin is asked
/// instead, and no number of calls under the old authority changes anything.
pub proof fn law_set_admin_hands_over(
    state: FactoryState,
    admin: Address,
    new_admin: Address,
    checked: Result<(), FactoryError>,
    calls: Seq<Call>,
)
    requires
        state.admin == Some(admin),
        new_admin != admin,
        forall|i: int| 0 <= i < calls.len() ==> (#[trigger] calls[i]).confirmed() == Some(admin),
    ensures
        ({
            let then = state.after(Call::SetAdmin { confirmed: Some(admin), new_admin });
            &&& then.admin == Some(new_admin)
            &&& then.admin_step(Some(admin), checked) == AdminStep::RequireAuth(new_admin)
            &&& then.after_all(calls) == then
        }),
{
    let then = state.after(Call::SetAdmin { confirmed: Some(admin), new_admin });
    law_outsiders_change_nothing(then, calls);
}

/// The policy lets a stream through if and only if its recipient is on the
/// allowlist, its deposit is within the cap, it ends after it starts, its
/// cliff lies between the two, and it runs for the minimum duration.
pub proof fn law_policy_is_what_it_says(
    state: FactoryState,
    recipient: Address,
    deposit_amount: i128,
    schedule: Schedule,
)
    requires
        state.coherent(),
    ensures
        state.policy_check(recipient, deposit_amount, schedule) is Ok <==> {
            &&& state.allowlist.contains(recipient)
            &&& deposit_amount <= state.max_deposit->0
            &&& schedule.start_time < schedule.end_time
            &&& schedule.start_time <= schedule.cliff_time <= schedule.end_time
            &&& schedule.end_time - schedule.start_time >= state.min_duration->0
        },
{
}

/// A request that the policy refuses is answered with the policy's error, no
/// matter who is confirmed: nobody is asked to authorize it and the stream
/// contract is not called.
pub proof fn law_refused_request_is_answered_at_once(
    state: FactoryState,
    error: FactoryError,
    confirmed: Option<Address>,
    stream_id: Option<u64>,
    sender: Address,
    recipient: Address,
    deposit_amount: i128,
    rate_per_second: i128,
    schedule: Schedule,
    withdraw_dust_threshold: i128,
)
    requires
        state.policy_check(recipient, deposit_amount, schedule) == Err::<(), FactoryError>(error),
    ensures
        state.create_step(
            confirmed,
            stream_id,
            sender,
            recipient,
            deposit_amount,
            rate_per_second,
            schedule,
            withdraw_dust_threshold,
        ) == CreateStep::Return(Err(error)),
{
}

/// A request that the policy lets through takes three steps: the sender
/// authorizes it, the stored stream contract is called with the request as it
/// is, without a memo and as a linear stream, and the caller gets the id that
/// the stream contract returned.
pub proof fn law_accepted_request_becomes_a_stream(
    state: FactoryState,
    stream_contract: Address,
    stream_id: u64,
    sender: Address,
    recipient: Address,
    deposit_amount: i128,
    rate_per_second: i128,
    schedule: Schedule,
    withdraw_dust_threshold: i128,
)
    requires
        state.stream_contract == Some(stream_contract),
        state.policy_check(recipient, deposit_amount, schedule) is Ok,
    ensures
        state.create_step(
            None,
            None,
            sender,
            recipient,
            deposit_amount,
            rate_per_second,
            schedule,
            withdraw_dust_threshold,
        ) == CreateStep::RequireAuth(sender),
        state.create_step(
            Some(sender),
            None,
            sender,
            recipient,
            deposit_amount,
            rate_per_second,
            schedule,
            withdraw_dust_threshold,
        ) == CreateStep::CallStream(
            StreamCall {
                stream_contract,
                sender,
                recipient,
                deposit_amount,
                rate_per_second,
                start_time: schedule.start_time,
                cliff_time: schedule.cliff_time,
                end_time: schedule.end_time,
                withdraw_dust_threshold,
                memo: None,
                kind: StreamKind::Linear,
            },
        ),
        state.create_step(
            Some(sender),
            Some(stream_id),
            sender,
            recipient,
            deposit_amount,
            rate_per_second,
            schedule,
            withdraw_dust_threshold,
        ) == CreateStep::Return(Ok(stream_id)),
{
}

/// Whatever reaches the stream contract is allowed by the policy, keeps the
/// stream contract's own time rules, and is authorized by its sender.
pub proof fn law_stream_calls_are_safe(
    state: FactoryState,
    call: StreamCall,
    confirmed: Option<Address>,
    stream_id: Option<u64>,
    sender: Address,
    recipient: Address,
    deposit_amount: i128,
    rate_per_second: i128,
    schedule: Schedule,
    withdraw_dust_threshold: i128,
)
    requires
        state.create_step(
            confirmed,
            stream_id,
            sender,
            recipient,
            deposit_amount,
            rate_per_second,
            schedule,
            withdraw_dust_threshold,
        ) == CreateStep::CallStream(call),
    ensures
        state.stream_contract == Some(call.stream_contract),
        confirmed == Some(call.sender),
        state.allowlist.contains(call.recipient),
        state.max_deposit is Some && call.deposit_amount <= state.max_deposit->0,
        call.start_time < call.end_time,
        call.start_time <= call.cliff_time <= call.end_time,
        state.min_duration is Some && call.end_time - call.start_time >= state.min_duration->0,
{
}

/// Before initialization the factory has no configuration, lets nobody set
/// anything, and knows no recipient.
pub proof fn law_nothing_works_before_init(
    state: FactoryState,
    call: Call,
    confirmed: Option<Address>,
    checked: Result<(), FactoryError>,
    recipient: Address,
    deposit_amount: i128,
    schedule: Schedule,
)
    requires
        state.coherent(),
        state.admin is None,
        !(call is Init),
    ensures
        state.config() == Err::<FactoryConfig, FactoryError>(FactoryError::NotInitialized),
        state.admin_step(confirmed, checked) == AdminStep::Return(
            Err(FactoryError::NotInitialized),
        ),
        state.after(call) == state,
        state.policy_check(recipient, deposit_amount, schedule) == Err::<(), FactoryError>(
            FactoryError::RecipientNotAllowlisted,
        ),
{
}

/// After initialization no call is told that the factory is not initialized.
pub proof fn law_nothing_is_missing_after_init(
    state: FactoryState,
    confirmed: Option<Address>,
    stream_id: Option<u64>,
    sender: Address,
    recipient: Address,
    deposit_amount: i128,
    rate_per_second: i128,
    schedule: Schedule,
    withdraw_dust_threshold: i128,
    checked: Result<(), FactoryError>,
)
    requires
        state.coherent(),
        state.admin is Some,
        checked != Err::<(), FactoryError>(FactoryError::NotInitialized),
    ensures
        state.config() is Ok,
        state.admin_step(confirmed, checked) != AdminStep::Return(
            Err(FactoryError::NotInitialized),
        ),
        state.create_step(
            confirmed,
            stream_id,
            sender,
            recipient,
            deposit_amount,
            rate_per_second,
            schedule,
            withdraw_dust_threshold,
        ) != CreateStep::Return(Err(FactoryError::NotInitialized)),
{
}

/// No policy that the factory accepts shuts it down: a deposit of one to an
/// allowlisted recipient goes through over every schedule that runs for at
/// least the ceiling of the minimum duration and has its cliff inside.
pub proof fn law_policy_leaves_room(
    state: FactoryState,
    recipient: Address,
    start_time: u64,
    cliff_time: u64,
    end_time: u64,
)
    requires
        state.coherent(),
        state.allowlist.contains(recipient),
        start_time <= cliff_time <= end_time,
        end_time - start_time >= MAX_MIN_DURATION_SECONDS,
    ensures
        state.policy_check(
            recipient,
            1,
            Schedule { start_time, cliff_time, end_time },
        ) is Ok,
{
}

/// Under a cap that is not positive every positive deposit would be refused,
/// which is why such a cap is not accepted.
pub proof fn law_unusable_cap_would_refuse_all(
    state: FactoryState,
    max_deposit: i128,
    recipient: Address,
    deposit_amount: i128,
    schedule: Schedule,
)
    requires
        cap_check(max_deposit) is Err,
        state.allowlist.contains(recipient),
        deposit_amount > 0,
    ensures
        (FactoryState { max_deposit: Some(max_deposit), ..state }).policy_check(
            recipient,
            deposit_amount,
            schedule,
        ) == Err::<(), FactoryError>(FactoryError::DepositExceedsCap),
{
}

/// A minimum duration of zero refuses nothing by itself, and a stream still
/// has to end after it starts.
pub proof fn law_zero_min_duration_is_off(
    state: FactoryState,
    recipient: Address,
    deposit_amount: i128,
    schedule: Schedule,
)
    requires
        state.min_duration == Some(0u64),
    ensures
        state.policy_check(recipient, deposit_amount, schedule) != Err::<(), FactoryError>(
            FactoryError::DurationTooShort,
        ),
        schedule.start_time >= schedule.end_time ==> state.policy_check(
            recipient,
            deposit_amount,
            schedule,
        ) is Err,
{
}

/// A policy with a cap no lower, a minimum duration no longer and an allowlist
/// no smaller lets through all that it let through before.
pub proof fn law_looser_policy_accepts_more(
    state: FactoryState,
    looser: FactoryState,
    recipient: Address,
    deposit_amount: i128,
    schedule: Schedule,
)
    requires
        looser.max_deposit is Some && state.max_deposit is Some,
        looser.max_deposit->0 >= state.max_deposit->0,
        looser.min_duration is Some && state.min_duration is Some,
        looser.min_duration->0 <= state.min_duration->0,
        state.allowlist.subset_of(looser.allowlist),
        state.policy_check(recipient, deposit_amount, schedule) is Ok,
    ensures
        looser.policy_check(recipient, deposit_amount, schedule) is Ok,
{
}

/// A call changes no entry but those that it writes.
pub proof fn law_calls_write_their_own_entries(state: FactoryState, call: Call, key: DataKey)
    requires
        !call.writes(key),
    ensures
        state.after(call).entry(key) == state.entry(key),
{
}

/// The entries are all there is to a factory: two that agree on every entry
/// are the same.
pub proof fn law_entries_are_the_whole_state(one: FactoryState, other: FactoryState)
    requires
        forall|key: DataKey| #[trigger] one.entry(key) == other.entry(key),
    ensures
        one == other,
{
    assert(one.entry(DataKey::Admin) == other.entry(DataKey::Admin));
    assert(one.entry(DataKey::StreamContract) == other.entry(DataKey::StreamContract));
    assert(one.entry(DataKey::MaxDepositCap) == other.entry(DataKey::MaxDepositCap));
    assert(one.entry(DataKey::MinDuration) == other.entry(DataKey::MinDuration));
    assert forall|recipient: Address|
        one.allowlist.contains(recipient) == other.allowlist.contains(recipient) by {
        assert(one.entry(DataKey::Allowlist(recipient)) == other.entry(
            DataKey::Allowlist(recipient),
        ));
    }
    assert(one =~= other);
}

/// A call needs no allowlist entry but its own: with the policy and one entry
/// in common, two factories answer a call alike and still have that entry in
/// common afterwards.
pub proof fn law_calls_need_no_other_entries(
    one: FactoryState,
    other: FactoryState,
    call: Call,
    key: DataKey,
)
    requires
        one == (FactoryState { allowlist: one.allowlist, ..other }),
        one.entry(key) == other.entry(key),
    ensures
        one.accepts(call) == other.accepts(call),
        one.after(call).entry(key) == other.after(call).entry(key),
{
}

/// Nor does a request to create a stream need more than the entry of its own
/// recipient.
pub proof fn law_requests_need_no_other_entries(
    one: FactoryState,
    other: FactoryState,
    confirmed: Option<Address>,
    stream_id: Option<u64>,
    sender: Address,
    recipient: Address,
    deposit_amount: i128,
    rate_per_second: i128,
    schedule: Schedule,
    withdraw_dust_threshold: i128,
)
    requires
        one == (FactoryState { allowlist: one.allowlist, ..other }),
        one.allowlist.contains(recipient) == other.allowlist.contains(recipient),
    ensures
        one.create_step(
            confirmed,
            stream_id,
            sender,
            recipient,
            deposit_amount,
            rate_per_second,
            schedule,
            withdraw_dust_threshold,
        ) == other.create_step(
            confirmed,
            stream_id,
            sender,
            recipient,
            deposit_amount,
            rate_per_second,
            schedule,
            withdraw_dust_threshold,
        ),
{
}

/// No two errors are published under one number.
pub proof fn law_error_codes_are_distinct(one: FactoryError, other: FactoryError)
    requires
        one.spec_code() == other.spec_code(),
    ensures
        one == other,
{
}

/// The numbers of the errors are fixed, for callers rely on them.
pub proof fn law_error_codes_are_published()
    ensures
        FactoryError::AlreadyInitialized.spec_code() == 1,
        FactoryError::NotInitialized.spec_code() == 2,
        FactoryError::Unauthorized.spec_code() == 3,
        FactoryError::RecipientNotAllowlisted.spec_code() == 4,
        FactoryError::DepositExceedsCap.spec_code() == 5,
        FactoryError::DurationTooShort.spec_code() == 6,
        FactoryError::InvalidTimeRange.spec_code() == 7,
        FactoryError::InvalidCliff.spec_code() == 8,
        FactoryError::InvalidCap.spec_code() == 9,
        FactoryError::InvalidMinDuration.spec_code() == 10,
{
}

/// Allowlist entries, and no others, are ledger entries of their own.
pub proof fn law_only_allowlist_entries_are_persistent(key: DataKey)
    ensures
        key.spec_durability() == Durability::Persistent <==> key is Allowlist,
        key.spec_durability() == Durability::Instance <==> {
            ||| key == DataKey::Admin
            ||| key == DataKey::StreamContract
            ||| key == DataKey::MaxDepositCap
            ||| key == DataKey::MinDuration
        },
{
}

/// A cap is accepted if and only if it is positive, and a minimum duration if
/// and only if it is at most a hundred years of 365 days. Each is refused with
/// its own error.
pub proof fn law_accepted_ranges(max_deposit: i128, min_duration: u64)
    ensures
        cap_check(max_deposit) == Ok::<(), FactoryError>(()) <==> 1 <= max_deposit,
        cap_check(max_deposit) == Err::<(), FactoryError>(FactoryError::InvalidCap)
            <==> max_deposit <= 0,
        min_duration_check(min_duration) == Ok::<(), FactoryError>(()) <==> min_duration
            <= 3_153_600_000,
        min_duration_check(min_duration) == Err::<(), FactoryError>(
            FactoryError::InvalidMinDuration,
        ) <==> min_duration > 3_153_600_000,
        MAX_MIN_DURATION_SECONDS == 3_153_600_000,
{
}

/// A new factory holds nothing: no part of the policy, and no recipient.
pub proof fn law_new_factory_holds_nothing(recipient: Address, key: DataKey)
    ensures
        FactoryState::empty().admin is None,
        FactoryState::empty().stream_contract is None,
        FactoryState::empty().max_deposit is None,
        FactoryState::empty().min_duration is None,
        !FactoryState::empty().allowlist.contains(recipient),
        FactoryState::empty().entry(key) is None,
{
}

/// What is stored under a key is the part of the factory that the key stands
/// for, unchanged, and there is an entry only where there is such a part.
pub proof fn law_entries_hold_the_factorys_values(
    state: FactoryState,
    address: Address,
    amount: i128,
    seconds: u64,
)
    ensures
        state.entry(DataKey::Admin) == Some(Entry::Address(address)) <==> state.admin == Some(
            address,
        ),
        state.entry(DataKey::StreamContract) == Some(Entry::Address(address))
            <==> state.stream_contract == Some(address),
        state.entry(DataKey::MaxDepositCap) == Some(Entry::Amount(amount)) <==> state.max_deposit
            == Some(amount),
        state.entry(DataKey::MinDuration) == Some(Entry::Seconds(seconds)) <==> state.min_duration
            == Some(seconds),
        state.entry(DataKey::Allowlist(address)) == Some(Entry::Flag(true))
            <==> state.allowlist.contains(address),
        state.entry(DataKey::Admin) is None <==> state.admin is None,
        state.entry(DataKey::StreamContract) is None <==> state.stream_contract is None,
        state.entry(DataKey::MaxDepositCap) is None <==> state.max_deposit is None,
        state.entry(DataKey::MinDuration) is None <==> state.min_duration is None,
        state.entry(DataKey::Allowlist(address)) is None <==> !state.allowlist.contains(address),
{
}

/// A call that goes through leaves its own arguments in the ledger.
pub proof fn law_calls_store_their_arguments(
    state: FactoryState,
    fresh: FactoryState,
    admin: Address,
    address: Address,
    stream_contract: Address,
    max_deposit: i128,
    min_duration: u64,
    allowed: bool,
)
    requires
        state.admin == Some(admin),
        fresh.admin is None,
        1 <= max_deposit,
        min_duration <= MAX_MIN_DURATION_SECONDS,
    ensures
        ({
            let confirmed = Some(admin);
            let started = fresh.after(
                Call::Init { admin: address, stream_contract, max_deposit, min_duration },
            );
            &&& started.entry(DataKey::Admin) == Some(Entry::Address(address))
            &&& started.entry(DataKey::StreamContract) == Some(Entry::Address(stream_contract))
            &&& started.entry(DataKey::MaxDepositCap) == Some(Entry::Amount(max_deposit))
            &&& started.entry(DataKey::MinDuration) == Some(Entry::Seconds(min_duration))
            &&& state.after(Call::SetAdmin { confirmed, new_admin: address }).entry(DataKey::Admin)
                == Some(Entry::Address(address))
            &&& state.after(
                Call::SetStreamContract { confirmed, new_stream_contract: address },
            ).entry(DataKey::StreamContract) == Some(Entry::Address(address))
            &&& state.after(Call::SetCap { confirmed, max_deposit }).entry(DataKey::MaxDepositCap)
                == Some(Entry::Amount(max_deposit))
            &&& state.after(Call::SetMinDuration { confirmed, min_duration }).entry(
                DataKey::MinDuration,
            ) == Some(Entry::Seconds(min_duration))
            &&& state.after(
                Call::SetAllowlist { confirmed, recipient: address, allowed },
            ).entry(DataKey::Allowlist(address)) == (if allowed {
                Some(Entry::Flag(true))
            } else {
                None
            })
        }),
{
}

/// The configuration shows the factory's own values, and is there if and only
/// if each of them is.
pub proof fn law_config_shows_the_factorys_values(state: FactoryState, config: FactoryConfig)
    ensures
        state.config() == Ok::<FactoryConfig, FactoryError>(config) <==> {
            &&& state.admin == Some(config.admin)
            &&& state.stream_contract == Some(config.stream_contract)
            &&& state.max_deposit == Some(config.max_deposit)
            &&& state.min_duration == Some(config.min_duration)
        },
        state.config() == Err::<FactoryConfig, FactoryError>(FactoryError::NotInitialized) <==> {
            ||| state.admin is None
            ||| state.stream_contract is None
            ||| state.max_deposit is None
            ||| state.min_duration is None
        },
{
}

/// The admin to be asked is the stored one; without one the factory is not
/// initialized.
pub proof fn law_the_stored_admin_is_asked(state: FactoryState, admin: Address)
    ensures
        state.current_admin() == Ok::<Address, FactoryError>(admin) <==> state.admin == Some(admin),
        state.current_admin() == Err::<Address, FactoryError>(FactoryError::NotInitialized)
            <==> state.admin is None,
{
}

/// An initialization succeeds if and only if there is no admin yet, the cap is
/// positive and the minimum duration is within its ceiling. Each refusal has
/// one reason: an admin comes first, then the cap, then the duration.
pub proof fn law_when_init_succeeds(state: FactoryState, max_deposit: i128, min_duration: u64)
    ensures
        state.init_answer(max_deposit, min_duration) == Ok::<(), FactoryError>(()) <==> {
            &&& state.admin is None
            &&& 1 <= max_deposit
            &&& min_duration <= MAX_MIN_DURATION_SECONDS
        },
        state.init_answer(max_deposit, min_duration) == Err::<(), FactoryError>(
            FactoryError::AlreadyInitialized,
        ) <==> state.admin is Some,
        state.init_answer(max_deposit, min_duration) == Err::<(), FactoryError>(
            FactoryError::InvalidCap,
        ) <==> state.admin is None && max_deposit <= 0,
        state.init_answer(max_deposit, min_duration) == Err::<(), FactoryError>(
            FactoryError::InvalidMinDuration,
        ) <==> state.admin is None && 1 <= max_deposit && min_duration > MAX_MIN_DURATION_SECONDS,
{
}

/// An initialization stores its arguments as they are given and leaves the
/// allowlist alone; one that is refused stores nothing.
pub proof fn law_what_init_stores(
    state: FactoryState,
    admin: Address,
    stream_contract: Address,
    max_deposit: i128,
    min_duration: u64,
)
    ensures
        ({
            let then = state.after(
                Call::Init { admin, stream_contract, max_deposit, min_duration },
            );
            if state.admin is None && 1 <= max_deposit && min_duration
                <= MAX_MIN_DURATION_SECONDS {
                &&& then.admin == Some(admin)
                &&& then.stream_contract == Some(stream_contract)
                &&& then.max_deposit == Some(max_deposit)
                &&& then.min_duration == Some(min_duration)
                &&& then.allowlist == state.allowlist
            } else {
                then == state
            }
        }),
{
}

/// Without an admin a setter answers that the factory is not initialized.
/// With one it asks that admin until the admin is confirmed, and then answers
/// what its argument is due.
pub proof fn law_when_setters_ask_and_answer(
    state: FactoryState,
    admin: Address,
    confirmed: Option<Address>,
    checked: Result<(), FactoryError>,
)
    ensures
        state.admin is None ==> state.admin_step(confirmed, checked) == AdminStep::Return(
            Err(FactoryError::NotInitialized),
        ),
        state.admin_step(confirmed, checked) == AdminStep::RequireAuth(admin) <==> state.admin
            == Some(admin) && confirmed != Some(admin),
        state.admin is Some && confirmed == state.admin ==> state.admin_step(confirmed, checked)
            == AdminStep::Return(checked),
{
}

/// Once the admin is confirmed, a cap is set if and only if it is positive and
/// a minimum duration if and only if it is within its ceiling.
pub proof fn law_when_policy_setters_succeed(
    state: FactoryState,
    admin: Address,
    max_deposit: i128,
    min_duration: u64,
)
    requires
        state.admin == Some(admin),
    ensures
        state.admin_step(Some(admin), cap_check(max_deposit)) == AdminStep::Return(Ok(()))
            <==> 1 <= max_deposit,
        state.admin_step(Some(admin), cap_check(max_deposit)) == AdminStep::Return(
            Err(FactoryError::InvalidCap),
        ) <==> max_deposit <= 0,
        state.admin_step(Some(admin), min_duration_check(min_duration)) == AdminStep::Return(Ok(()))
            <==> min_duration <= MAX_MIN_DURATION_SECONDS,
        state.admin_step(Some(admin), min_duration_check(min_duration)) == AdminStep::Return(
            Err(FactoryError::InvalidMinDuration),
        ) <==> min_duration > MAX_MIN_DURATION_SECONDS,
{
}

/// Handing over stores the new admin as given, and the new stream contract is
/// stored as given; nothing else changes, and nothing at all changes unless
/// the current admin is confirmed.
pub proof fn law_what_address_setters_store(
    state: FactoryState,
    confirmed: Option<Address>,
    address: Address,
)
    ensures
        ({
            let goes_through = state.admin is Some && confirmed == state.admin;
            let to_admin = state.after(Call::SetAdmin { confirmed, new_admin: address });
            let to_contract = state.after(
                Call::SetStreamContract { confirmed, new_stream_contract: address },
            );
            &&& to_admin.admin == (if goes_through {
                Some(address)
            } else {
                state.admin
            })
            &&& to_admin.stream_contract == state.stream_contract
            &&& to_admin.max_deposit == state.max_deposit
            &&& to_admin.min_duration == state.min_duration
            &&& to_admin.allowlist == state.allowlist
            &&& to_contract.stream_contract == (if goes_through {
                Some(address)
            } else {
                state.stream_contract
            })
            &&& to_contract.admin == state.admin
            &&& to_contract.max_deposit == state.max_deposit
            &&& to_contract.min_duration == state.min_duration
            &&& to_contract.allowlist == state.allowlist
        }),
{
}

/// A cap and a minimum duration in their accepted ranges are stored as given;
/// nothing else changes, and nothing at all changes out of range or unless the
/// current admin is confirmed.
pub proof fn law_what_policy_setters_store(
    state: FactoryState,
    confirmed: Option<Address>,
    max_deposit: i128,
    min_duration: u64,
)
    ensures
        ({
            let known = state.admin is Some && confirmed == state.admin;
            let to_cap = state.after(Call::SetCap { confirmed, max_deposit });
            let to_duration = state.after(Call::SetMinDuration { confirmed, min_duration });
            &&& to_cap.max_deposit == (if known && 1 <= max_deposit {
                Some(max_deposit)
            } else {
                state.max_deposit
            })
            &&& to_cap.admin == state.admin
            &&& to_cap.stream_contract == state.stream_contract
            &&& to_cap.min_duration == state.min_duration
            &&& to_cap.allowlist == state.allowlist
            &&& to_duration.min_duration == (if known && min_duration <= MAX_MIN_DURATION_SECONDS {
                Some(min_duration)
            } else {
                state.min_duration
            })
            &&& to_duration.admin == state.admin
            &&& to_duration.stream_contract == state.stream_contract
            &&& to_duration.max_deposit == state.max_deposit
            &&& to_duration.allowlist == state.allowlist
        }),
{
}

/// A recipient is on the allowlist after a call about the allowlist if and only
/// if the confirmed admin has just said so, or was there before and the call
/// was about another recipient or did not go through. The policy is unchanged.
pub proof fn law_what_set_allowlist_stores(
    state: FactoryState,
    confirmed: Option<Address>,
    recipient: Address,
    allowed: bool,
    anyone: Address,
)
    ensures
        ({
            let goes_through = state.admin is Some && confirmed == state.admin;
            let then = state.after(Call::SetAllowlist { confirmed, recipient, allowed });
            &&& then.allowlist.contains(anyone) == (if goes_through && anyone == recipient {
                allowed
            } else {
                state.allowlist.contains(anyone)
            })
            &&& then.admin == state.admin
            &&& then.stream_contract == state.stream_contract
            &&& then.max_deposit == state.max_deposit
            &&& then.min_duration == state.min_duration
        }),
{
}

/// Calls go through exactly when they are entitled to: an initialization on a
/// factory without an admin, any other call when the current admin is
/// confirmed, and either only with arguments in their accepted ranges.
pub proof fn law_which_calls_go_through(
    state: FactoryState,
    confirmed: Option<Address>,
    address: Address,
    stream_contract: Address,
    max_deposit: i128,
    min_duration: u64,
    allowed: bool,
)
    ensures
        ({
            let known = state.admin is Some && confirmed == state.admin;
            let usable_cap = 1 <= max_deposit;
            let usable_duration = min_duration <= MAX_MIN_DURATION_SECONDS;
            &&& state.accepts(
                Call::Init { admin: address, stream_contract, max_deposit, min_duration },
            ) == (state.admin is None && usable_cap && usable_duration)
            &&& state.accepts(Call::SetAdmin { confirmed, new_admin: address }) == known
            &&& state.accepts(
                Call::SetStreamContract { confirmed, new_stream_contract: address },
            ) == known
            &&& state.accepts(Call::SetAllowlist { confirmed, recipient: address, allowed })
                == known
            &&& state.accepts(Call::SetCap { confirmed, max_deposit }) == (known && usable_cap)
            &&& state.accepts(Call::SetMinDuration { confirmed, min_duration }) == (known
                && usable_duration)
        }),
{
}

/// A history is its calls, one after the other.
pub proof fn law_histories_are_step_by_step(state: FactoryState, calls: Seq<Call>, call: Call)
    ensures
        state.after_all(Seq::empty()) == state,
        state.after_all(calls.push(call)) == state.after_all(calls).after(call),
{
    assert(calls.push(call).drop_last() =~= calls);
}

/// Each answer of the policy has its one reason, and the rules are taken in
/// this order: recipient, deposit, time range, cliff, duration. A rule whose
/// limit is not stored answers that the factory is not initialized.
pub proof fn law_each_refusal_has_its_reason(
    state: FactoryState,
    recipient: Address,
    deposit_amount: i128,
    start_time: u64,
    cliff_time: u64,
    end_time: u64,
)
    ensures
        ({
            let answer = state.policy_check(
                recipient,
                deposit_amount,
                Schedule { start_time, cliff_time, end_time },
            );
            let listed = state.allowlist.contains(recipient);
            let affordable = listed && state.max_deposit is Some && deposit_amount
                <= state.max_deposit->0;
            let ordered = affordable && start_time < end_time;
            let timely = ordered && start_time <= cliff_time && cliff_time <= end_time;
            &&& answer == Err::<(), FactoryError>(FactoryError::RecipientNotAllowlisted)
                <==> !listed
            &&& answer == Err::<(), FactoryError>(FactoryError::DepositExceedsCap) <==> listed
                && state.max_deposit is Some && deposit_amount > state.max_deposit->0
            &&& answer == Err::<(), FactoryError>(FactoryError::InvalidTimeRange) <==> affordable
                && start_time >= end_time
            &&& answer == Err::<(), FactoryError>(FactoryError::InvalidCliff) <==> ordered && (
            cliff_time < start_time || cliff_time > end_time)
            &&& answer == Err::<(), FactoryError>(FactoryError::DurationTooShort) <==> timely
                && state.min_duration is Some && end_time - start_time < state.min_duration->0
            &&& answer == Err::<(), FactoryError>(FactoryError::NotInitialized) <==> (listed
                && state.max_deposit is None) || (timely && state.min_duration is None)
            &&& answer == Ok::<(), FactoryError>(()) <==> timely && state.min_duration is Some
                && end_time - start_time >= state.min_duration->0
        }),
{
}

/// The sender of an acceptable request is asked until confirmed, even where
/// the host already has an id. A confirmed request to a factory without a
/// stream contract is answered that the factory is not initialized; with one,
/// that contract is called with the request as it is, and the id that it
/// returns is the answer.
pub proof fn law_what_an_acceptable_request_does(
    state: FactoryState,
    confirmed: Option<Address>,
    stream_id: Option<u64>,
    sender: Address,
    recipient: Address,
    deposit_amount: i128,
    rate_per_second: i128,
    start_time: u64,
    cliff_time: u64,
    end_time: u64,
    withdraw_dust_threshold: i128,
)
    requires
        state.allowlist.contains(recipient),
        state.max_deposit is Some && deposit_amount <= state.max_deposit->0,
        start_time < end_time,
        start_time <= cliff_time <= end_time,
        state.min_duration is Some && end_time - start_time >= state.min_duration->0,
    ensures
        ({
            let step = state.create_step(
                confirmed,
                stream_id,
                sender,
                recipient,
                deposit_amount,
                rate_per_second,
                Schedule { start_time, cliff_time, end_time },
                withdraw_dust_threshold,
            );
            &&& step == CreateStep::RequireAuth(sender) <==> confirmed != Some(sender)
            &&& step == CreateStep::Return(Err(FactoryError::NotInitialized)) <==> confirmed
                == Some(sender) && state.stream_contract is None
            &&& confirmed == Some(sender) && state.stream_contract is Some ==> match stream_id {
                Some(id) => step == CreateStep::Return(Ok(id)),
                None => step is CallStream && ({
                    let call = step->CallStream_0;
                    &&& Some(call.stream_contract) == state.stream_contract
                    &&& call.sender == sender
                    &&& call.recipient == recipient
                    &&& call.deposit_amount == deposit_amount
                    &&& call.rate_per_second == rate_per_second
                    &&& call.start_time == start_time
                    &&& call.cliff_time == cliff_time
                    &&& call.end_time == end_time
                    &&& call.withdraw_dust_threshold == withdraw_dust_threshold
                    &&& call.memo is None
                    &&& call.kind == StreamKind::Linear
                }),
            }
        }),
{
}

/// A request is only ever taken to the stream contract, or answered with an
/// id, where the policy's every rule is kept and its sender is confirmed.
pub proof fn law_only_acceptable_requests_succeed(
    state: FactoryState,
    confirmed: Option<Address>,
    stream_id: Option<u64>,
    sender: Address,
    recipient: Address,
    deposit_amount: i128,
    rate_per_second: i128,
    start_time: u64,
    cliff_time: u64,
    end_time: u64,
    withdraw_dust_threshold: i128,
)
    ensures
        ({
            let step = state.create_step(
                confirmed,
                stream_id,
                sender,
                recipient,
                deposit_amount,
                rate_per_second,
                Schedule { start_time, cliff_time, end_time },
                withdraw_dust_threshold,
            );
            let acceptable = {
                &&& state.allowlist.contains(recipient)
                &&& state.max_deposit is Some && deposit_amount <= state.max_deposit->0
                &&& start_time < end_time
                &&& start_time <= cliff_time <= end_time
                &&& state.min_duration is Some && end_time - start_time >= state.min_duration->0
            };
            let ready = acceptable && confirmed == Some(sender) && state.stream_contract is Some;
            &&& step is CallStream <==> ready && stream_id is None
            &&& step is Return && step->Return_0 is Ok <==> ready && stream_id is Some
            &&& step is RequireAuth <==> acceptable && confirmed != Some(sender)
        }),
{
}

/// The cap that was given is the cap in force: after an initialization or a
/// change of the cap, a deposit to an allowlisted recipient is refused for its
/// size exactly when it exceeds what that call was given.
pub proof fn law_the_given_cap_is_in_force(
    state: FactoryState,
    fresh: FactoryState,
    admin: Address,
    stream_contract: Address,
    max_deposit: i128,
    min_duration: u64,
    recipient: Address,
    deposit_amount: i128,
    schedule: Schedule,
)
    requires
        state.admin == Some(admin),
        fresh.admin is None,
        1 <= max_deposit,
        min_duration <= MAX_MIN_DURATION_SECONDS,
        state.allowlist.contains(recipient),
    ensures
        ({
            let confirmed = Some(admin);
            let changed = state.after(Call::SetCap { confirmed, max_deposit });
            let started = fresh.after(
                Call::Init { admin, stream_contract, max_deposit, min_duration },
            ).after(Call::SetAllowlist { confirmed, recipient, allowed: true });
            let refusal = Err::<(), FactoryError>(FactoryError::DepositExceedsCap);
            &&& changed.policy_check(recipient, deposit_amount, schedule) == refusal
                <==> deposit_amount > max_deposit
            &&& started.policy_check(recipient, deposit_amount, schedule) == refusal
                <==> deposit_amount > max_deposit
        }),
{
}

/// The minimum duration that was given is the one in force: after an
/// initialization or a change of the minimum, a request that keeps the other
/// rules is refused for its duration exactly when it is shorter than what that
/// call was given, and is let through otherwise.
pub proof fn law_the_given_min_duration_is_in_force(
    state: FactoryState,
    fresh: FactoryState,
    admin: Address,
    stream_contract: Address,
    max_deposit: i128,
    min_duration: u64,
    recipient: Address,
    deposit_amount: i128,
    start_time: u64,
    cliff_time: u64,
    end_time: u64,
)
    requires
        state.admin == Some(admin),
        state.max_deposit is Some && deposit_amount <= state.max_deposit->0,
        fresh.admin is None,
        1 <= max_deposit,
        deposit_amount <= max_deposit,
        min_duration <= MAX_MIN_DURATION_SECONDS,
        state.allowlist.contains(recipient),
        start_time < end_time,
        start_time <= cliff_time <= end_time,
    ensures
        ({
            let schedule = Schedule { start_time, cliff_time, end_time };
            let changed = state.after(
                Call::SetMinDuration { confirmed: Some(admin), min_duration },
            ).policy_check(recipient, deposit_amount, schedule);
            let started = fresh.after(
                Call::Init { admin, stream_contract, max_deposit, min_duration },
            ).after(
                Call::SetAllowlist { confirmed: Some(admin), recipient, allowed: true },
            ).policy_check(recipient, deposit_amount, schedule);
            &&& changed == Err::<(), FactoryError>(FactoryError::DurationTooShort) <==> end_time
                - start_time < min_duration
            &&& changed == Ok::<(), FactoryError>(()) <==> end_time - start_time >= min_duration
            &&& started == Err::<(), FactoryError>(FactoryError::DurationTooShort) <==> end_time
                - start_time < min_duration
            &&& started == Ok::<(), FactoryError>(()) <==> end_time - start_time >= min_duration
        }),
{
}

/// The stream contract that was given is the one that is called: whatever the
/// next request, a call that comes of it after an initialization or a change of
/// the stream contract goes to the address which that call was given.
pub proof fn law_the_given_stream_contract_is_called(
    state: FactoryState,
    fresh: FactoryState,
    admin: Address,
    stream_contract: Address,
    max_deposit: i128,
    min_duration: u64,
    sender: Address,
    recipient: Address,
    deposit_amount: i128,
    rate_per_second: i128,
    schedule: Schedule,
    withdraw_dust_threshold: i128,
)
    requires
        state.admin == Some(admin),
        fresh.admin is None,
        1 <= max_deposit,
        min_duration <= MAX_MIN_DURATION_SECONDS,
    ensures
        ({
            let pointed = state.after(
                Call::SetStreamContract {
                    confirmed: Some(admin),
                    new_stream_contract: stream_contract,
                },
            );
            let started = fresh.after(
                Call::Init { admin, stream_contract, max_deposit, min_duration },
            ).after(Call::SetAllowlist { confirmed: Some(admin), recipient, allowed: true });
            let changed = pointed.create_step(
                Some(sender),
                None,
                sender,
                recipient,
                deposit_amount,
                rate_per_second,
                schedule,
                withdraw_dust_threshold,
            );
            let first = started.create_step(
                Some(sender),
                None,
                sender,
                recipient,
                deposit_amount,
                rate_per_second,
                schedule,
                withdraw_dust_threshold,
            );
            &&& pointed.stream_contract == Some(stream_contract)
            &&& started.stream_contract == Some(stream_contract)
            &&& state.policy_check(recipient, deposit_amount, schedule) is Ok ==> changed
                is CallStream && changed->CallStream_0.stream_contract == stream_contract
            &&& started.policy_check(recipient, deposit_amount, schedule) is Ok ==> first
                is CallStream && first->CallStream_0.stream_contract == stream_contract
        }),
{
}

/// The admin that was given is the one who is asked: after an initialization
/// or a change of the admin, that address is stored, is asked for every
/// setter, and is answered once confirmed.
pub proof fn law_the_given_admin_is_in_charge(
    state: FactoryState,
    fresh: FactoryState,
    admin: Address,
    new_admin: Address,
    stream_contract: Address,
    max_deposit: i128,
    min_duration: u64,
    confirmed: Option<Address>,
    checked: Result<(), FactoryError>,
)
    requires
        state.admin == Some(admin),
        fresh.admin is None,
        1 <= max_deposit,
        min_duration <= MAX_MIN_DURATION_SECONDS,
    ensures
        ({
            let changed = state.after(Call::SetAdmin { confirmed: Some(admin), new_admin });
            let started = fresh.after(
                Call::Init { admin: new_admin, stream_contract, max_deposit, min_duration },
            );
            let due = if confirmed == Some(new_admin) {
                AdminStep::Return(checked)
            } else {
                AdminStep::RequireAuth(new_admin)
            };
            &&& changed.current_admin() == Ok::<Address, FactoryError>(new_admin)
            &&& changed.entry(DataKey::Admin) == Some(Entry::Address(new_admin))
            &&& changed.admin_step(confirmed, checked) == due
            &&& started.current_admin() == Ok::<Address, FactoryError>(new_admin)
            &&& started.entry(DataKey::Admin) == Some(Entry::Address(new_admin))
            &&& started.admin_step(confirmed, checked) == due
        }),
{
}

/// The allowlist that was given is the one in force: after the admin has
/// spoken of a recipient, a request for that recipient is refused for want of
/// an allowlist entry exactly when the admin said no, and one for anybody else
/// exactly when it would have been before.
pub proof fn law_the_given_allowlist_is_in_force(
    state: FactoryState,
    admin: Address,
    recipient: Address,
    allowed: bool,
    other: Address,
    deposit_amount: i128,
    schedule: Schedule,
)
    requires
        state.admin == Some(admin),
        other != recipient,
    ensures
        ({
            let then = state.after(
                Call::SetAllowlist { confirmed: Some(admin), recipient, allowed },
            );
            &&& then.policy_check(recipient, deposit_amount, schedule) == Err::<(), FactoryError>(
                FactoryError::RecipientNotAllowlisted,
            ) <==> !allowed
            &&& then.policy_check(other, deposit_amount, schedule) == state.policy_check(
                other,
                deposit_amount,
                schedule,
            )
        }),
{
}

} // verus!
