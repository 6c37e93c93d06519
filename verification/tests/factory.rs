use fluxora_factory::{
    validate_cap, validate_min_duration, Address, AdminStep, CreateStep, DataKey, Durability,
    Entry, FactoryConfig, FactoryError, FluxoraFactory, StreamCall, StreamKind,
    MAX_MIN_DURATION_SECONDS,
};

const ADMIN: Address = Address::Account { hi: 1, lo: 1 };
const OTHER_ADMIN: Address = Address::Account { hi: 1, lo: 2 };
const STREAMS: Address = Address::Contract { hi: 2, lo: 0 };
const SENDER: Address = Address::Account { hi: 3, lo: 0 };
const RECIPIENT: Address = Address::Account { hi: 4, lo: 0 };

const DONE: AdminStep = AdminStep::Return(Ok(()));

fn initialized() -> FluxoraFactory {
    let mut factory = FluxoraFactory::new();
    assert_eq!(factory.init(ADMIN, STREAMS, 1_000, 100), Ok(()));
    factory
}

fn with_recipient() -> FluxoraFactory {
    let mut factory = initialized();
    assert_eq!(factory.set_allowlist(Some(ADMIN), RECIPIENT, true), DONE);
    factory
}

fn request(
    factory: &FluxoraFactory,
    confirmed: Option<Address>,
    stream_id: Option<u64>,
    deposit_amount: i128,
    start_time: u64,
    cliff_time: u64,
    end_time: u64,
) -> CreateStep {
    factory.create_stream(
        confirmed,
        stream_id,
        SENDER,
        RECIPIENT,
        deposit_amount,
        7,
        start_time,
        cliff_time,
        end_time,
        3,
    )
}

fn refused(error: FactoryError) -> CreateStep {
    CreateStep::Return(Err(error))
}

fn config(factory: &FluxoraFactory) -> FactoryConfig {
    factory.get_factory_config().unwrap()
}

#[test]
fn caps_are_positive() {
    assert_eq!(validate_cap(1), Ok(()));
    assert_eq!(validate_cap(i128::MAX), Ok(()));
    assert_eq!(validate_cap(0), Err(FactoryError::InvalidCap));
    assert_eq!(validate_cap(-1), Err(FactoryError::InvalidCap));
    assert_eq!(validate_cap(i128::MIN), Err(FactoryError::InvalidCap));
}

#[test]
fn minimum_durations_have_a_ceiling() {
    assert_eq!(MAX_MIN_DURATION_SECONDS, 3_153_600_000);
    assert_eq!(validate_min_duration(0), Ok(()));
    assert_eq!(validate_min_duration(MAX_MIN_DURATION_SECONDS), Ok(()));
    assert_eq!(
        validate_min_duration(MAX_MIN_DURATION_SECONDS + 1),
        Err(FactoryError::InvalidMinDuration)
    );
    assert_eq!(validate_min_duration(u64::MAX), Err(FactoryError::InvalidMinDuration));
}

#[test]
fn error_codes_run_from_one_to_ten() {
    let errors = [
        FactoryError::AlreadyInitialized,
        FactoryError::NotInitialized,
        FactoryError::Unauthorized,
        FactoryError::RecipientNotAllowlisted,
        FactoryError::DepositExceedsCap,
        FactoryError::DurationTooShort,
        FactoryError::InvalidTimeRange,
        FactoryError::InvalidCliff,
        FactoryError::InvalidCap,
        FactoryError::InvalidMinDuration,
    ];
    for (i, error) in errors.iter().enumerate() {
        assert_eq!(error.code(), i as u32 + 1);
    }
}

#[test]
fn init_reads_back() {
    let factory = initialized();
    assert_eq!(
        factory.get_factory_config(),
        Ok(FactoryConfig {
            admin: ADMIN,
            stream_contract: STREAMS,
            max_deposit: 1_000,
            min_duration: 100,
        })
    );
    assert_eq!(factory.require_admin(), Ok(ADMIN));
    assert!(!factory.is_allowlisted(RECIPIENT));
}

#[test]
fn init_checks_the_policy() {
    let mut factory = FluxoraFactory::new();
    assert_eq!(factory.init(ADMIN, STREAMS, 0, 100), Err(FactoryError::InvalidCap));
    assert_eq!(factory.init(ADMIN, STREAMS, 0, u64::MAX), Err(FactoryError::InvalidCap));
    assert_eq!(
        factory.init(ADMIN, STREAMS, 1, MAX_MIN_DURATION_SECONDS + 1),
        Err(FactoryError::InvalidMinDuration)
    );
    assert_eq!(factory.get_factory_config(), Err(FactoryError::NotInitialized));
    assert_eq!(factory.init(ADMIN, STREAMS, 1, MAX_MIN_DURATION_SECONDS), Ok(()));
}

#[test]
fn init_works_once() {
    let mut factory = initialized();
    let before = config(&factory);
    assert_eq!(
        factory.init(OTHER_ADMIN, SENDER, 5, 5),
        Err(FactoryError::AlreadyInitialized)
    );
    assert_eq!(
        factory.init(OTHER_ADMIN, SENDER, 0, 5),
        Err(FactoryError::AlreadyInitialized)
    );
    assert_eq!(config(&factory), before);
}

#[test]
fn nothing_works_before_init() {
    let mut factory = FluxoraFactory::new();
    let not_initialized = AdminStep::Return(Err(FactoryError::NotInitialized));
    assert_eq!(factory.require_admin(), Err(FactoryError::NotInitialized));
    assert_eq!(factory.set_admin(Some(ADMIN), ADMIN), not_initialized);
    assert_eq!(factory.set_stream_contract(Some(ADMIN), STREAMS), not_initialized);
    assert_eq!(factory.set_allowlist(Some(ADMIN), RECIPIENT, true), not_initialized);
    assert_eq!(factory.set_cap(Some(ADMIN), 0), not_initialized);
    assert_eq!(factory.set_min_duration(Some(ADMIN), 1), not_initialized);
    assert_eq!(factory.get_factory_config(), Err(FactoryError::NotInitialized));
    assert!(!factory.is_allowlisted(RECIPIENT));
    assert_eq!(
        request(&factory, Some(SENDER), None, 1, 0, 0, 10),
        refused(FactoryError::RecipientNotAllowlisted)
    );
}

#[test]
fn setters_ask_for_the_admin_first() {
    let mut factory = initialized();
    let before = config(&factory);
    let ask = AdminStep::RequireAuth(ADMIN);
    for confirmed in [None, Some(OTHER_ADMIN), Some(RECIPIENT)] {
        assert_eq!(factory.set_admin(confirmed, OTHER_ADMIN), ask);
        assert_eq!(factory.set_stream_contract(confirmed, SENDER), ask);
        assert_eq!(factory.set_allowlist(confirmed, RECIPIENT, true), ask);
        assert_eq!(factory.set_cap(confirmed, 0), ask);
        assert_eq!(factory.set_cap(confirmed, 9), ask);
        assert_eq!(factory.set_min_duration(confirmed, u64::MAX), ask);
        assert_eq!(factory.set_min_duration(confirmed, 9), ask);
    }
    assert_eq!(config(&factory), before);
    assert!(!factory.is_allowlisted(RECIPIENT));
}

#[test]
fn setters_read_back() {
    let mut factory = with_recipient();
    assert_eq!(factory.set_cap(Some(ADMIN), 5), DONE);
    assert_eq!(config(&factory).max_deposit, 5);
    assert_eq!(factory.set_min_duration(Some(ADMIN), 0), DONE);
    assert_eq!(config(&factory).min_duration, 0);
    assert_eq!(factory.set_stream_contract(Some(ADMIN), OTHER_ADMIN), DONE);
    assert_eq!(factory.set_admin(Some(ADMIN), SENDER), DONE);
    assert_eq!(
        config(&factory),
        FactoryConfig {
            admin: SENDER,
            stream_contract: OTHER_ADMIN,
            max_deposit: 5,
            min_duration: 0,
        }
    );
    assert!(factory.is_allowlisted(RECIPIENT));
}

#[test]
fn refused_setters_change_nothing() {
    let mut factory = initialized();
    let before = config(&factory);
    assert_eq!(
        factory.set_cap(Some(ADMIN), 0),
        AdminStep::Return(Err(FactoryError::InvalidCap))
    );
    assert_eq!(
        factory.set_cap(Some(ADMIN), -5),
        AdminStep::Return(Err(FactoryError::InvalidCap))
    );
    assert_eq!(
        factory.set_min_duration(Some(ADMIN), MAX_MIN_DURATION_SECONDS + 1),
        AdminStep::Return(Err(FactoryError::InvalidMinDuration))
    );
    assert_eq!(config(&factory), before);
    assert_eq!(factory.set_min_duration(Some(ADMIN), MAX_MIN_DURATION_SECONDS), DONE);
}

#[test]
fn handing_over_ends_the_old_authority() {
    let mut factory = initialized();
    assert_eq!(factory.set_admin(Some(ADMIN), OTHER_ADMIN), DONE);
    assert_eq!(factory.set_cap(Some(ADMIN), 9), AdminStep::RequireAuth(OTHER_ADMIN));
    assert_eq!(factory.set_admin(Some(ADMIN), ADMIN), AdminStep::RequireAuth(OTHER_ADMIN));
    assert_eq!(config(&factory).admin, OTHER_ADMIN);
    assert_eq!(config(&factory).max_deposit, 1_000);
    assert_eq!(factory.set_cap(Some(OTHER_ADMIN), 9), DONE);
    assert_eq!(config(&factory).max_deposit, 9);
}

#[test]
fn allowlist_is_a_set() {
    let mut factory = initialized();
    assert_eq!(factory.set_allowlist(Some(ADMIN), RECIPIENT, false), DONE);
    assert!(!factory.is_allowlisted(RECIPIENT));
    assert_eq!(factory.set_allowlist(Some(ADMIN), SENDER, true), DONE);
    assert_eq!(factory.set_allowlist(Some(ADMIN), RECIPIENT, true), DONE);
    assert_eq!(factory.set_allowlist(Some(ADMIN), RECIPIENT, true), DONE);
    assert!(factory.is_allowlisted(RECIPIENT));
    assert_eq!(factory.set_allowlist(Some(ADMIN), RECIPIENT, false), DONE);
    assert!(!factory.is_allowlisted(RECIPIENT));
    assert!(factory.is_allowlisted(SENDER));
}

#[test]
fn an_account_and_a_contract_never_coincide() {
    let mut factory = initialized();
    let account = Address::Account { hi: 8, lo: 9 };
    let contract = Address::Contract { hi: 8, lo: 9 };
    assert_eq!(factory.set_allowlist(Some(ADMIN), account, true), DONE);
    assert!(factory.is_allowlisted(account));
    assert!(!factory.is_allowlisted(contract));
    assert!(!factory.is_allowlisted(Address::Account { hi: 9, lo: 8 }));
}

#[test]
fn removal_drops_every_copy_of_a_restored_recipient() {
    let mut factory = FluxoraFactory::restore(
        Some(ADMIN),
        Some(STREAMS),
        Some(1),
        Some(0),
        vec![(RECIPIENT, Some(true)), (SENDER, Some(true)), (RECIPIENT, Some(true))],
    );
    assert_eq!(factory.set_allowlist(Some(ADMIN), RECIPIENT, false), DONE);
    assert!(!factory.is_allowlisted(RECIPIENT));
    assert!(factory.is_allowlisted(SENDER));
}

#[test]
fn only_a_true_entry_allows() {
    let factory = FluxoraFactory::restore(
        None,
        None,
        None,
        None,
        vec![(RECIPIENT, Some(true)), (SENDER, Some(false)), (ADMIN, None)],
    );
    assert!(factory.is_allowlisted(RECIPIENT));
    assert!(!factory.is_allowlisted(SENDER));
    assert!(!factory.is_allowlisted(ADMIN));
    assert!(!factory.is_allowlisted(OTHER_ADMIN));
}

#[test]
fn accepted_request_becomes_a_stream() {
    let factory = with_recipient();
    assert_eq!(
        request(&factory, None, None, 1_000, 50, 60, 150),
        CreateStep::RequireAuth(SENDER)
    );
    assert_eq!(
        request(&factory, Some(ADMIN), None, 1_000, 50, 60, 150),
        CreateStep::RequireAuth(SENDER)
    );
    assert_eq!(
        request(&factory, Some(SENDER), None, 1_000, 50, 60, 150),
        CreateStep::CallStream(StreamCall {
            stream_contract: STREAMS,
            sender: SENDER,
            recipient: RECIPIENT,
            deposit_amount: 1_000,
            rate_per_second: 7,
            start_time: 50,
            cliff_time: 60,
            end_time: 150,
            withdraw_dust_threshold: 3,
            memo: None,
            kind: StreamKind::Linear,
        })
    );
    assert_eq!(
        request(&factory, Some(SENDER), Some(42), 1_000, 50, 60, 150),
        CreateStep::Return(Ok(42))
    );
    // An id without the sender's authorization is not passed on.
    assert_eq!(
        request(&factory, None, Some(42), 1_000, 50, 60, 150),
        CreateStep::RequireAuth(SENDER)
    );
}

#[test]
fn refused_request_asks_nobody() {
    let mut factory = with_recipient();
    for confirmed in [None, Some(SENDER)] {
        for stream_id in [None, Some(42)] {
            assert_eq!(
                request(&factory, confirmed, stream_id, 1_001, 0, 0, 100),
                refused(FactoryError::DepositExceedsCap)
            );
            assert_eq!(
                request(&factory, confirmed, stream_id, 1_000, 100, 100, 100),
                refused(FactoryError::InvalidTimeRange)
            );
            assert_eq!(
                request(&factory, confirmed, stream_id, 1_000, 101, 100, 100),
                refused(FactoryError::InvalidTimeRange)
            );
            assert_eq!(
                request(&factory, confirmed, stream_id, 1_000, 10, 9, 200),
                refused(FactoryError::InvalidCliff)
            );
            assert_eq!(
                request(&factory, confirmed, stream_id, 1_000, 10, 201, 200),
                refused(FactoryError::InvalidCliff)
            );
            assert_eq!(
                request(&factory, confirmed, stream_id, 1_000, 0, 0, 99),
                refused(FactoryError::DurationTooShort)
            );
        }
    }
    assert_eq!(factory.set_allowlist(Some(ADMIN), RECIPIENT, false), DONE);
    assert_eq!(
        request(&factory, None, None, 1_001, 100, 100, 100),
        refused(FactoryError::RecipientNotAllowlisted)
    );
}

#[test]
fn the_first_failing_rule_gives_the_error() {
    let factory = with_recipient();
    assert_eq!(
        request(&factory, None, None, 1_001, 100, 0, 50),
        refused(FactoryError::DepositExceedsCap)
    );
    assert_eq!(
        request(&factory, None, None, 1_000, 100, 0, 50),
        refused(FactoryError::InvalidTimeRange)
    );
    assert_eq!(
        request(&factory, None, None, 1_000, 40, 0, 50),
        refused(FactoryError::InvalidCliff)
    );
}

#[test]
fn boundary_requests_are_accepted() {
    let factory = with_recipient();
    let ask = CreateStep::RequireAuth(SENDER);
    assert_eq!(request(&factory, None, None, 1_000, 0, 0, 100), ask);
    assert_eq!(request(&factory, None, None, 1_000, 0, 100, 100), ask);
    assert_eq!(request(&factory, None, None, 0, 0, 0, u64::MAX), ask);
    // The deposit has no lower bound here; the stream contract has its own.
    assert_eq!(request(&factory, None, None, -1, 0, 0, 100), ask);
}

#[test]
fn zero_minimum_duration_is_off() {
    let mut factory = with_recipient();
    assert_eq!(factory.set_min_duration(Some(ADMIN), 0), DONE);
    assert_eq!(
        request(&factory, None, None, 1, 5, 5, 6),
        CreateStep::RequireAuth(SENDER)
    );
    assert_eq!(
        request(&factory, None, None, 1, 5, 5, 5),
        refused(FactoryError::InvalidTimeRange)
    );
}

#[test]
fn strictest_policy_leaves_room() {
    let mut factory = with_recipient();
    assert_eq!(factory.set_cap(Some(ADMIN), 1), DONE);
    assert_eq!(factory.set_min_duration(Some(ADMIN), MAX_MIN_DURATION_SECONDS), DONE);
    assert_eq!(
        request(&factory, None, None, 1, 0, 0, MAX_MIN_DURATION_SECONDS),
        CreateStep::RequireAuth(SENDER)
    );
    assert_eq!(
        request(&factory, None, None, 2, 0, 0, MAX_MIN_DURATION_SECONDS),
        refused(FactoryError::DepositExceedsCap)
    );
}

#[test]
fn looser_policy_accepts_more() {
    let mut factory = with_recipient();
    assert_eq!(
        request(&factory, None, None, 2_000, 0, 0, 50),
        refused(FactoryError::DepositExceedsCap)
    );
    assert_eq!(factory.set_cap(Some(ADMIN), 2_000), DONE);
    assert_eq!(
        request(&factory, None, None, 2_000, 0, 0, 50),
        refused(FactoryError::DurationTooShort)
    );
    assert_eq!(factory.set_min_duration(Some(ADMIN), 50), DONE);
    assert_eq!(
        request(&factory, None, None, 2_000, 0, 0, 50),
        CreateStep::RequireAuth(SENDER)
    );
    assert_eq!(
        request(&factory, None, None, 1_000, 0, 0, 100),
        CreateStep::RequireAuth(SENDER)
    );
}

#[test]
fn partly_stored_policies_are_not_initialized() {
    let recipients = || vec![(RECIPIENT, Some(true))];
    let without_cap =
        FluxoraFactory::restore(Some(ADMIN), Some(STREAMS), None, Some(0), recipients());
    assert_eq!(
        request(&without_cap, None, None, 1, 9, 9, 9),
        refused(FactoryError::NotInitialized)
    );
    assert_eq!(without_cap.get_factory_config(), Err(FactoryError::NotInitialized));
    let without_duration =
        FluxoraFactory::restore(Some(ADMIN), Some(STREAMS), Some(5), None, recipients());
    assert_eq!(
        request(&without_duration, None, None, 1, 9, 9, 9),
        refused(FactoryError::InvalidTimeRange)
    );
    assert_eq!(
        request(&without_duration, None, None, 1, 0, 0, 9),
        refused(FactoryError::NotInitialized)
    );
    assert_eq!(without_duration.get_factory_config(), Err(FactoryError::NotInitialized));
    let without_streams =
        FluxoraFactory::restore(Some(ADMIN), None, Some(5), Some(0), recipients());
    assert_eq!(
        request(&without_streams, None, None, 1, 0, 0, 9),
        CreateStep::RequireAuth(SENDER)
    );
    assert_eq!(
        request(&without_streams, Some(SENDER), None, 1, 0, 0, 9),
        refused(FactoryError::NotInitialized)
    );
    assert_eq!(without_streams.get_factory_config(), Err(FactoryError::NotInitialized));
    let without_admin =
        FluxoraFactory::restore(None, Some(STREAMS), Some(5), Some(0), recipients());
    assert_eq!(without_admin.get_factory_config(), Err(FactoryError::NotInitialized));
    assert_eq!(
        request(&without_admin, None, None, 1, 0, 0, 9),
        CreateStep::RequireAuth(SENDER)
    );
}

#[test]
fn entries_are_what_the_ledger_holds() {
    let factory = with_recipient();
    assert_eq!(factory.entry(DataKey::Admin), Some(Entry::Address(ADMIN)));
    assert_eq!(factory.entry(DataKey::StreamContract), Some(Entry::Address(STREAMS)));
    assert_eq!(factory.entry(DataKey::MaxDepositCap), Some(Entry::Amount(1_000)));
    assert_eq!(factory.entry(DataKey::MinDuration), Some(Entry::Seconds(100)));
    assert_eq!(factory.entry(DataKey::Allowlist(RECIPIENT)), Some(Entry::Flag(true)));
    assert_eq!(factory.entry(DataKey::Allowlist(SENDER)), None);
    let fresh = FluxoraFactory::new();
    for key in [
        DataKey::Admin,
        DataKey::StreamContract,
        DataKey::MaxDepositCap,
        DataKey::MinDuration,
        DataKey::Allowlist(RECIPIENT),
    ] {
        assert_eq!(fresh.entry(key), None);
    }
}

#[test]
fn allowlist_entries_are_persistent() {
    assert_eq!(DataKey::Admin.durability(), Durability::Instance);
    assert_eq!(DataKey::StreamContract.durability(), Durability::Instance);
    assert_eq!(DataKey::MaxDepositCap.durability(), Durability::Instance);
    assert_eq!(DataKey::MinDuration.durability(), Durability::Instance);
    assert_eq!(DataKey::Allowlist(RECIPIENT).durability(), Durability::Persistent);
}

#[test]
fn calls_write_their_own_entries() {
    let keys = [
        DataKey::Admin,
        DataKey::StreamContract,
        DataKey::MaxDepositCap,
        DataKey::MinDuration,
        DataKey::Allowlist(RECIPIENT),
        DataKey::Allowlist(SENDER),
    ];
    let entries = |factory: &FluxoraFactory| keys.map(|key| factory.entry(key));
    let changed = |before: [Option<Entry>; 6], after: [Option<Entry>; 6]| -> Vec<DataKey> {
        (0..6).filter(|&i| before[i] != after[i]).map(|i| keys[i]).collect()
    };
    let mut factory = initialized();
    let mut before = entries(&factory);
    factory.set_allowlist(Some(ADMIN), SENDER, true);
    assert_eq!(changed(before, entries(&factory)), vec![DataKey::Allowlist(SENDER)]);
    before = entries(&factory);
    factory.set_cap(Some(ADMIN), 2);
    assert_eq!(changed(before, entries(&factory)), vec![DataKey::MaxDepositCap]);
    before = entries(&factory);
    factory.set_min_duration(Some(ADMIN), 2);
    assert_eq!(changed(before, entries(&factory)), vec![DataKey::MinDuration]);
    before = entries(&factory);
    factory.set_stream_contract(Some(ADMIN), SENDER);
    assert_eq!(changed(before, entries(&factory)), vec![DataKey::StreamContract]);
    before = entries(&factory);
    factory.set_admin(Some(ADMIN), SENDER);
    assert_eq!(changed(before, entries(&factory)), vec![DataKey::Admin]);
}

#[test]
fn one_recipients_entry_is_enough() {
    let mut whole = with_recipient();
    whole.set_allowlist(Some(ADMIN), OTHER_ADMIN, true);
    let mut part = FluxoraFactory::restore(
        Some(ADMIN),
        Some(STREAMS),
        Some(1_000),
        Some(100),
        vec![(RECIPIENT, Some(true))],
    );
    assert_eq!(
        request(&whole, Some(SENDER), None, 5, 0, 0, 100),
        request(&part, Some(SENDER), None, 5, 0, 0, 100)
    );
    assert_eq!(whole.set_allowlist(Some(ADMIN), RECIPIENT, false), DONE);
    assert_eq!(part.set_allowlist(Some(ADMIN), RECIPIENT, false), DONE);
    let key = DataKey::Allowlist(RECIPIENT);
    assert_eq!(whole.entry(key), part.entry(key));
}
