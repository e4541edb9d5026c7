use stream_contract::{
    Address, AddressKind, DataKey, EmergencyStopToggledEvent, Event, Ledger, Stream,
    StreamContract, StreamError,
};

fn account(tag: u8) -> Address {
    Address { kind: AddressKind::Account, key: [tag; 32] }
}

fn contract(tag: u8) -> Address {
    Address { kind: AddressKind::Contract, key: [tag; 32] }
}

fn sample_stream() -> Stream {
    Stream {
        sender: account(10),
        recipient: account(11),
        token_address: contract(200),
        rate_per_second: 5,
        deposited_amount: 500,
        withdrawn_amount: 100,
        start_time: 3,
        last_update_time: 7,
        duration: 100,
        is_active: true,
    }
}

#[test]
fn initialize_works_once() {
    let mut ledger = Ledger::new(contract(1));
    assert_eq!(ledger.admin(), None);
    assert_eq!(StreamContract::initialize(&mut ledger, account(1)), Ok(()));
    assert_eq!(ledger.admin(), Some(account(1)));
    assert_eq!(
        StreamContract::initialize(&mut ledger, account(2)),
        Err(StreamError::AlreadyInitialized)
    );
    assert_eq!(
        StreamContract::initialize(&mut ledger, account(1)),
        Err(StreamError::AlreadyInitialized)
    );
    assert_eq!(ledger.admin(), Some(account(1)));
    assert!(ledger.events().is_empty());
}

#[test]
fn emergency_mode_without_an_admin_is_unauthorized() {
    let mut ledger = Ledger::new(contract(1));
    assert_eq!(
        StreamContract::set_emergency_mode(&mut ledger, account(1), true),
        Err(StreamError::Unauthorized)
    );
    assert!(!StreamContract::is_emergency_mode(&ledger));
    assert_eq!(ledger.emergency_stop(), None);
}

#[test]
fn emergency_mode_is_off_until_it_is_set() {
    assert!(!StreamContract::is_emergency_mode(&Ledger::new(contract(1))));
    assert!(!StreamContract::is_emergency_mode(&Ledger::restore(
        contract(1),
        0,
        None,
        Some(false),
        None
    )));
    assert!(StreamContract::is_emergency_mode(&Ledger::restore(
        contract(1),
        0,
        None,
        Some(true),
        None
    )));
}

#[test]
fn switching_the_emergency_stop_is_published() {
    let mut ledger = Ledger::new(contract(1));
    let admin = account(1);
    StreamContract::initialize(&mut ledger, admin).unwrap();
    StreamContract::set_emergency_mode(&mut ledger, admin, true).unwrap();
    StreamContract::set_emergency_mode(&mut ledger, account(2), false).unwrap_err();
    StreamContract::set_emergency_mode(&mut ledger, admin, false).unwrap();
    assert_eq!(
        ledger.events().as_slice(),
        &[
            Event::EmergencyStopToggled(EmergencyStopToggledEvent { enabled: true, admin }),
            Event::EmergencyStopToggled(EmergencyStopToggledEvent { enabled: false, admin }),
        ]
    );
    assert_eq!(ledger.events()[0].topic(), "emergency_stop_toggled");
    assert_eq!(ledger.events()[0].stream_id(), None);
    assert_eq!(ledger.emergency_stop(), Some(false));
}

#[test]
fn errors_are_numbered_from_one() {
    assert_eq!(StreamError::InvalidAmount.code(), 1);
    assert_eq!(StreamError::StreamNotFound.code(), 2);
    assert_eq!(StreamError::Unauthorized.code(), 3);
    assert_eq!(StreamError::StreamInactive.code(), 4);
    assert_eq!(StreamError::AlreadyInitialized.code(), 5);
    assert_eq!(StreamError::NotAdmin.code(), 6);
    assert_eq!(StreamError::EmergencyStopEnabled.code(), 7);
}

#[test]
fn keys_are_named_after_their_variants() {
    assert_eq!(DataKey::Stream(0).name(), "Stream");
    assert_eq!(DataKey::Stream(u64::MAX).name(), "Stream");
    assert_eq!(DataKey::StreamCounter.name(), "StreamCounter");
    assert_eq!(DataKey::Admin.name(), "Admin");
    assert_eq!(DataKey::EmergencyStop.name(), "EmergencyStop");
}

#[test]
fn addresses_are_equal_when_kind_and_key_are() {
    assert_eq!(account(5), account(5));
    assert_ne!(account(5), contract(5));
    assert_ne!(account(5), account(6));
    let mut key = [5u8; 32];
    key[31] = 6;
    assert_ne!(account(5), Address { kind: AddressKind::Account, key });
    key[31] = 5;
    assert_eq!(account(5), Address { kind: AddressKind::Account, key });
    key[0] = 0;
    assert_ne!(account(5), Address { kind: AddressKind::Account, key });
}

#[test]
fn a_fresh_ledger_holds_nothing() {
    let ledger = Ledger::new(contract(1));
    assert!(!ledger.has(&DataKey::Admin));
    assert!(!ledger.has(&DataKey::EmergencyStop));
    assert!(!ledger.has(&DataKey::StreamCounter));
    assert!(!ledger.has(&DataKey::Stream(1)));
    assert_eq!(ledger.stream_counter(), None);
    assert_eq!(ledger.timestamp(), 0);
}

#[test]
fn has_tells_what_is_kept() {
    let mut ledger = Ledger::new(contract(1));
    let admin = account(1);
    StreamContract::initialize(&mut ledger, admin).unwrap();
    assert!(ledger.has(&DataKey::Admin));
    assert!(!ledger.has(&DataKey::EmergencyStop));
    StreamContract::set_emergency_mode(&mut ledger, admin, false).unwrap();
    assert!(ledger.has(&DataKey::EmergencyStop));
    assert!(!ledger.has(&DataKey::StreamCounter));
    StreamContract::create_stream(&mut ledger, account(10), account(11), contract(200), 5, 1)
        .unwrap();
    assert!(ledger.has(&DataKey::StreamCounter));
    assert!(ledger.has(&DataKey::Stream(1)));
    assert!(!ledger.has(&DataKey::Stream(2)));
    assert!(!ledger.has(&DataKey::Stream(0)));
}

#[test]
fn restore_takes_up_what_was_kept() {
    let ledger = Ledger::restore(contract(1), 77, Some(account(1)), Some(true), Some(9));
    assert_eq!(ledger.contract_address(), contract(1));
    assert_eq!(ledger.timestamp(), 77);
    assert_eq!(ledger.admin(), Some(account(1)));
    assert_eq!(ledger.emergency_stop(), Some(true));
    assert_eq!(ledger.stream_counter(), Some(9));
    assert!(ledger.transfers().is_empty());
    assert!(ledger.events().is_empty());
    assert_eq!(ledger.stream(1), None);
}

#[test]
fn a_restored_ledger_goes_on_counting() {
    let mut ledger = Ledger::restore(contract(1), 77, None, None, Some(9));
    assert!(ledger.restore_stream(9, sample_stream()));
    assert_eq!(
        StreamContract::create_stream(&mut ledger, account(10), account(11), contract(200), 5, 1),
        Ok(10)
    );
    assert_eq!(ledger.stream(9), Some(sample_stream()));
    assert_eq!(StreamContract::withdraw(&mut ledger, account(11), 9), Ok(400));
}

#[test]
fn restore_stream_turns_away_ids_that_were_never_handed_out() {
    let mut ledger = Ledger::restore(contract(1), 77, None, None, Some(3));
    assert!(!ledger.restore_stream(0, sample_stream()));
    assert!(!ledger.restore_stream(4, sample_stream()));
    assert!(ledger.restore_stream(1, sample_stream()));
    assert!(ledger.restore_stream(3, sample_stream()));
    assert_eq!(ledger.stream(0), None);
    assert_eq!(ledger.stream(4), None);
    let mut empty = Ledger::new(contract(1));
    assert!(!empty.restore_stream(1, sample_stream()));
}

#[test]
fn restore_stream_turns_away_records_that_break_the_invariant() {
    let mut ledger = Ledger::restore(contract(1), 77, None, None, Some(3));
    let good = sample_stream();
    assert!(good.is_well_formed());
    let cases = [
        Stream { withdrawn_amount: 501, ..good },
        Stream { withdrawn_amount: -1, ..good },
        Stream { rate_per_second: 501, ..good },
        Stream { rate_per_second: -1, ..good },
        Stream { duration: 0, ..good },
        Stream { start_time: 8, ..good },
    ];
    for case in cases {
        assert!(!case.is_well_formed());
        assert!(!ledger.restore_stream(1, case));
    }
    assert!(!ledger.restore_stream(1, Stream { last_update_time: 78, ..good }));
    assert_eq!(ledger.stream(1), None);
    assert!(ledger.restore_stream(1, Stream { last_update_time: 77, ..good }));
}
