use stream_contract::math::prorate;
use stream_contract::{
    Address, AddressKind, Event, Ledger, Settlement, Stream, StreamCancelledEvent,
    StreamContract, StreamError, Transfer,
};

fn account(tag: u8) -> Address {
    Address { kind: AddressKind::Account, key: [tag; 32] }
}

fn contract(tag: u8) -> Address {
    Address { kind: AddressKind::Contract, key: [tag; 32] }
}

fn stream_with(rate: i128, deposited: i128, withdrawn: i128, start: u64, duration: u64) -> Stream {
    Stream {
        sender: account(10),
        recipient: account(11),
        token_address: contract(200),
        rate_per_second: rate,
        deposited_amount: deposited,
        withdrawn_amount: withdrawn,
        start_time: start,
        last_update_time: start,
        duration,
        is_active: true,
    }
}

#[test]
fn prorate_rounds_down() {
    assert_eq!(prorate(1000, 1, 3), 333);
    assert_eq!(prorate(7, 5, 10), 3);
    assert_eq!(prorate(10, 50, 100), 5);
    assert_eq!(prorate(1, 500, 1000), 0);
    assert_eq!(prorate(1, 999, 1000), 0);
}

#[test]
fn prorate_of_nothing_and_of_everything() {
    assert_eq!(prorate(12345, 0, 7), 0);
    assert_eq!(prorate(12345, 7, 7), 12345);
    assert_eq!(prorate(0, 3, 7), 0);
    assert_eq!(prorate(u128::MAX, u64::MAX, u64::MAX), u128::MAX);
}

#[test]
fn prorate_is_exact_where_the_product_is_wider_than_the_amount() {
    assert_eq!(
        prorate(u128::MAX, u64::MAX - 1, u64::MAX),
        340282366920938463444927863358058659838
    );
    assert_eq!(
        prorate(i128::MAX as u128, 1 << 63, u64::MAX),
        85070591730234615870455337876369440767
    );
}

#[test]
fn open_divides_the_deposit_by_the_duration_rounding_down() {
    let stream = Stream::open(account(10), account(11), contract(200), 1000, 3, 77);
    assert_eq!(stream.rate_per_second, 333);
    assert_eq!(stream.deposited_amount, 1000);
    assert_eq!(stream.withdrawn_amount, 0);
    assert_eq!(stream.start_time, 77);
    assert_eq!(stream.last_update_time, 77);
    assert_eq!(stream.duration, 3);
    assert!(stream.is_active);
    assert!(stream.is_well_formed());

    let small = Stream::open(account(10), account(11), contract(200), 5, 10, 0);
    assert_eq!(small.rate_per_second, 0);
}

#[test]
fn settlement_halfway_splits_the_rate_allotment() {
    let stream = stream_with(10, 1000, 0, 0, 100);
    assert_eq!(stream.settlement(50), Settlement { vested: 5, remainder: 5 });
    assert_eq!(stream.settlement(0), Settlement { vested: 0, remainder: 10 });
    assert_eq!(stream.settlement(99), Settlement { vested: 9, remainder: 1 });
    assert_eq!(stream.settlement(19), Settlement { vested: 1, remainder: 9 });
}

#[test]
fn settlement_after_the_duration_leaves_nothing_for_the_sender() {
    let stream = stream_with(10, 1000, 0, 0, 100);
    assert_eq!(stream.settlement(100), Settlement { vested: 10, remainder: 0 });
    assert_eq!(stream.settlement(101), Settlement { vested: 10, remainder: 0 });
    assert_eq!(stream.settlement(u64::MAX), Settlement { vested: 10, remainder: 0 });
}

#[test]
fn settlement_takes_off_what_was_withdrawn() {
    assert_eq!(
        stream_with(100, 1000, 30, 0, 10).settlement(5),
        Settlement { vested: 20, remainder: 50 }
    );
    assert_eq!(
        stream_with(100, 1000, 80, 0, 10).settlement(5),
        Settlement { vested: 0, remainder: 20 }
    );
    assert_eq!(
        stream_with(100, 1000, 150, 0, 10).settlement(5),
        Settlement { vested: 0, remainder: 0 }
    );
    assert_eq!(
        stream_with(100, 1000, 150, 0, 10).settlement(10),
        Settlement { vested: 0, remainder: 0 }
    );
    assert_eq!(
        stream_with(100, 1000, 30, 0, 10).settlement(10),
        Settlement { vested: 70, remainder: 0 }
    );
}

#[test]
fn settlement_before_the_start_counts_no_time() {
    let stream = stream_with(100, 1000, 0, 50, 10);
    assert_eq!(stream.settlement(20), Settlement { vested: 0, remainder: 100 });
    assert_eq!(stream.settlement(50), Settlement { vested: 0, remainder: 100 });
    assert_eq!(stream.settlement(55), Settlement { vested: 50, remainder: 50 });
}

#[test]
fn settlement_of_the_largest_rate_does_not_overflow() {
    let stream = stream_with(i128::MAX, i128::MAX, 0, 0, u64::MAX);
    let split = stream.settlement(1 << 63);
    assert_eq!(split.vested, 85070591730234615870455337876369440767);
    assert_eq!(split.remainder, i128::MAX - 85070591730234615870455337876369440767);
    assert_eq!(stream.settlement(u64::MAX), Settlement { vested: i128::MAX, remainder: 0 });
}

#[test]
fn cancel_halfway_pays_both_parties() {
    let custody = contract(1);
    let (sender, recipient, token) = (account(10), account(11), contract(200));
    let mut ledger = Ledger::new(custody);
    ledger.advance_time(1_000);
    let id = StreamContract::create_stream(&mut ledger, sender, recipient, token, 1000, 100)
        .unwrap();
    assert_eq!(StreamContract::get_stream(&ledger, id).unwrap().rate_per_second, 10);

    ledger.advance_time(1_050);
    assert_eq!(StreamContract::cancel_stream(&mut ledger, sender, id), Ok(()));

    let transfers = ledger.transfers();
    assert_eq!(transfers.len(), 3);
    assert_eq!(
        transfers[1],
        Transfer { stream_id: id, token_address: token, from: custody, to: recipient, amount: 5 }
    );
    assert_eq!(
        transfers[2],
        Transfer { stream_id: id, token_address: token, from: custody, to: sender, amount: 5 }
    );
    assert_eq!(
        *ledger.events().last().unwrap(),
        Event::StreamCancelled(StreamCancelledEvent {
            stream_id: id,
            sender,
            recipient,
            amount_withdrawn: 0,
            vested_amount: 5,
            refunded_amount: 5,
        })
    );

    let stream = StreamContract::get_stream(&ledger, id).unwrap();
    assert!(!stream.is_active);
    assert_eq!(stream.last_update_time, 1_050);
    assert_eq!(stream.withdrawn_amount, 0);
    assert_eq!(stream.deposited_amount, 1000);
}

#[test]
fn cancel_with_a_rate_of_one_pays_nothing_to_the_recipient_before_the_end() {
    let custody = contract(1);
    let (sender, recipient, token) = (account(10), account(11), contract(200));
    let mut ledger = Ledger::new(custody);
    let id = StreamContract::create_stream(&mut ledger, sender, recipient, token, 1000, 1000)
        .unwrap();
    assert_eq!(StreamContract::get_stream(&ledger, id).unwrap().rate_per_second, 1);

    ledger.advance_time(500);
    assert_eq!(StreamContract::cancel_stream(&mut ledger, sender, id), Ok(()));

    let transfers = ledger.transfers();
    assert_eq!(transfers.len(), 2);
    assert_eq!(
        transfers[1],
        Transfer { stream_id: id, token_address: token, from: custody, to: sender, amount: 1 }
    );
}

#[test]
fn cancel_after_the_duration_pays_the_whole_rate_to_the_recipient() {
    let custody = contract(1);
    let (sender, recipient, token) = (account(10), account(11), contract(200));
    let mut ledger = Ledger::new(custody);
    let id = StreamContract::create_stream(&mut ledger, sender, recipient, token, 1000, 100)
        .unwrap();

    ledger.advance_time(100);
    assert_eq!(StreamContract::cancel_stream(&mut ledger, sender, id), Ok(()));

    let transfers = ledger.transfers();
    assert_eq!(transfers.len(), 2);
    assert_eq!(
        transfers[1],
        Transfer { stream_id: id, token_address: token, from: custody, to: recipient, amount: 10 }
    );
}

#[test]
fn cancel_of_a_stream_with_rate_zero_orders_no_transfer() {
    let mut ledger = Ledger::new(contract(1));
    let (sender, recipient, token) = (account(10), account(11), contract(200));
    let id = StreamContract::create_stream(&mut ledger, sender, recipient, token, 5, 10).unwrap();
    ledger.advance_time(7);
    assert_eq!(StreamContract::cancel_stream(&mut ledger, sender, id), Ok(()));
    assert_eq!(ledger.transfers().len(), 1);
    assert_eq!(ledger.events().len(), 2);
}

#[test]
fn cancel_is_for_the_sender_only() {
    let mut ledger = Ledger::new(contract(1));
    let (sender, recipient, token) = (account(10), account(11), contract(200));
    let id = StreamContract::create_stream(&mut ledger, sender, recipient, token, 1000, 100)
        .unwrap();
    let before = StreamContract::get_stream(&ledger, id).unwrap();

    assert_eq!(
        StreamContract::cancel_stream(&mut ledger, recipient, id),
        Err(StreamError::Unauthorized)
    );
    assert_eq!(
        StreamContract::cancel_stream(&mut ledger, account(66), id),
        Err(StreamError::Unauthorized)
    );
    assert_eq!(StreamContract::get_stream(&ledger, id).unwrap(), before);
    assert_eq!(ledger.transfers().len(), 1);
    assert_eq!(ledger.events().len(), 1);
}

#[test]
fn cancel_of_an_unknown_stream_is_not_found() {
    let mut ledger = Ledger::new(contract(1));
    assert_eq!(
        StreamContract::cancel_stream(&mut ledger, account(10), 1),
        Err(StreamError::StreamNotFound)
    );
}

#[test]
fn cancel_is_allowed_in_emergency() {
    let mut ledger = Ledger::new(contract(1));
    let (admin, sender, recipient, token) = (account(1), account(10), account(11), contract(200));
    StreamContract::initialize(&mut ledger, admin).unwrap();
    let id = StreamContract::create_stream(&mut ledger, sender, recipient, token, 1000, 100)
        .unwrap();
    StreamContract::set_emergency_mode(&mut ledger, admin, true).unwrap();
    assert_eq!(StreamContract::cancel_stream(&mut ledger, sender, id), Ok(()));
    assert!(!StreamContract::get_stream(&ledger, id).unwrap().is_active);
}
