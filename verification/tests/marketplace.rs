use farmers_escrow::address::Address;
use farmers_escrow::marketplace::{
    DataKey, Effect, EscrowContract, EscrowError, Event, EventData, Ledger, SnapshotRecord, Topic,
    MIN_TIMEOUT_SECS, TTL_MAX, TTL_MIN,
};
use soroban_sdk::Env;

fn setup_ledger() -> Ledger {
    Ledger::new(1_000_000, 1)
}

fn future_timeout(ledger: &Ledger) -> u64 {
    ledger.timestamp + 7_200
}

fn address(id: u64) -> Address {
    Address { id }
}

fn events(ledger: &Ledger) -> Vec<Event> {
    let mut found = Vec::new();
    for effect in &ledger.effects {
        if let Effect::Publish(event) = effect {
            found.push(*event);
        }
    }
    found
}

fn ids(env: &Env, order_ids: &[u64]) -> soroban_sdk::Vec<u64> {
    soroban_sdk::Vec::from_slice(env, order_ids)
}

fn extension(key: DataKey) -> Effect {
    Effect::ExtendTtl { key, threshold: 100_000, extend_to: 200_000 }
}

#[test]
fn test_deposit_same_buyer_and_farmer_returns_invalid_parties() {
    let mut ledger = setup_ledger();
    let alice = address(1);
    let timeout = future_timeout(&ledger);
    let result = EscrowContract::deposit(&mut ledger, 1, alice, alice, 1_000_000, timeout);
    assert_eq!(result, Err(EscrowError::InvalidParties));
    assert!(ledger.effects.is_empty());
}

#[test]
fn test_deposit_different_parties_succeeds() {
    let mut ledger = setup_ledger();
    let timeout = future_timeout(&ledger);
    let result =
        EscrowContract::deposit(&mut ledger, 1, address(1), address(2), 1_000_000, timeout);
    assert_eq!(result, Ok(()));
}

#[test]
fn test_deposit_future_timeout_succeeds() {
    let mut ledger = setup_ledger();
    let just_enough = ledger.timestamp + MIN_TIMEOUT_SECS + 1;
    assert!(EscrowContract::timeout_acceptable(&ledger, just_enough));
    let result =
        EscrowContract::deposit(&mut ledger, 4, address(1), address(2), 1_000_000, just_enough);
    assert_eq!(result, Ok(()));
}

#[test]
fn timeout_must_lie_more_than_an_hour_ahead() {
    let ledger = setup_ledger();
    let now = ledger.timestamp;
    assert!(!EscrowContract::timeout_acceptable(&ledger, now - 1));
    assert!(!EscrowContract::timeout_acceptable(&ledger, now + 1_800));
    assert!(!EscrowContract::timeout_acceptable(&ledger, now + 3_600));
    assert!(EscrowContract::timeout_acceptable(&ledger, now + 3_601));
    assert!(EscrowContract::timeout_acceptable(&ledger, u64::MAX));
}

#[test]
fn no_timeout_is_acceptable_in_the_last_hour_of_time() {
    let ledger = Ledger::new(u64::MAX - 3_599, 1);
    assert!(!EscrowContract::timeout_acceptable(&ledger, u64::MAX));
    let ledger = Ledger::new(u64::MAX - 3_600, 1);
    assert!(!EscrowContract::timeout_acceptable(&ledger, u64::MAX));
    let ledger = Ledger::new(u64::MAX - 3_601, 1);
    assert!(EscrowContract::timeout_acceptable(&ledger, u64::MAX));
}

#[test]
fn a_refused_deposit_may_have_any_timeout() {
    let mut ledger = setup_ledger();
    let timeout = future_timeout(&ledger);
    assert_eq!(
        EscrowContract::deposit(&mut ledger, 1, address(1), address(1), 5, 0),
        Err(EscrowError::InvalidParties)
    );
    assert!(!EscrowContract::deposit_possible(&ledger, 1, address(1), address(2), 0));
    assert!(EscrowContract::deposit_possible(&ledger, 1, address(1), address(1), 0));
    assert!(EscrowContract::deposit_possible(&ledger, 1, address(1), address(2), timeout));
    EscrowContract::deposit(&mut ledger, 1, address(1), address(2), 5, timeout).unwrap();
    assert!(EscrowContract::deposit_possible(&ledger, 1, address(1), address(2), 0));
    assert_eq!(
        EscrowContract::deposit(&mut ledger, 1, address(1), address(2), 5, 0),
        Err(EscrowError::AlreadyExists)
    );
    assert_eq!(
        EscrowContract::deposit(&mut ledger, 1, address(2), address(2), 5, 0),
        Err(EscrowError::InvalidParties)
    );
}

#[test]
fn test_deposit_emits_event() {
    let mut ledger = setup_ledger();
    let buyer = address(1);
    let farmer = address(2);
    let amount: i128 = 5_000_000;
    let order_id: u64 = 10;
    let timeout = future_timeout(&ledger);

    EscrowContract::deposit(&mut ledger, order_id, buyer, farmer, amount, timeout).unwrap();

    let events = events(&ledger);
    assert_eq!(events.len(), 1);
    assert_eq!(
        events[0].topics(),
        vec![Topic::Symbol("escrow"), Topic::Symbol("deposit"), Topic::Id(order_id)]
    );
    assert_eq!(events[0].data(), EventData::Deposit(buyer, farmer, amount));
}

#[test]
fn test_release_emits_event() {
    let mut ledger = setup_ledger();
    let amount: i128 = 5_000_000;
    let order_id: u64 = 20;
    let timeout = future_timeout(&ledger);

    EscrowContract::deposit(&mut ledger, order_id, address(1), address(2), amount, timeout)
        .unwrap();
    EscrowContract::release(&mut ledger, order_id).unwrap();

    let event = *events(&ledger).last().unwrap();
    assert_eq!(
        event.topics(),
        vec![Topic::Symbol("escrow"), Topic::Symbol("release"), Topic::Id(order_id)]
    );
    assert_eq!(event.data(), EventData::Amount(amount));
}

#[test]
fn test_refund_emits_event() {
    let mut ledger = setup_ledger();
    let amount: i128 = 5_000_000;
    let order_id: u64 = 30;
    let timeout = future_timeout(&ledger);

    EscrowContract::deposit(&mut ledger, order_id, address(1), address(2), amount, timeout)
        .unwrap();
    ledger.timestamp = timeout + 1;
    ledger.sequence = 2;
    EscrowContract::refund(&mut ledger, order_id).unwrap();

    let event = *events(&ledger).last().unwrap();
    assert_eq!(
        event.topics(),
        vec![Topic::Symbol("escrow"), Topic::Symbol("refund"), Topic::Id(order_id)]
    );
    assert_eq!(event.data(), EventData::Amount(amount));
}

#[test]
fn test_ttl_extended_after_deposit_entry_is_readable() {
    let mut ledger = setup_ledger();
    let order_id: u64 = 40;
    let timeout = future_timeout(&ledger);

    EscrowContract::deposit(&mut ledger, order_id, address(1), address(2), 1_000_000, timeout)
        .unwrap();

    let record = EscrowContract::get_escrow(&ledger, order_id).unwrap();
    assert_eq!(record.amount, 1_000_000);
    assert!(!record.released);
    assert!(ledger.effects.contains(&extension(DataKey::Escrow(order_id))));
}

#[test]
fn test_ttl_extended_after_release_entry_is_settled_not_evicted() {
    let mut ledger = setup_ledger();
    let order_id: u64 = 50;
    let timeout = future_timeout(&ledger);

    EscrowContract::deposit(&mut ledger, order_id, address(1), address(2), 1_000_000, timeout)
        .unwrap();
    EscrowContract::release(&mut ledger, order_id).unwrap();

    let result = EscrowContract::release(&mut ledger, order_id);
    assert_eq!(result, Err(EscrowError::AlreadySettled));
    assert!(ledger.escrows[&order_id].released);
}

#[test]
fn test_refund_before_timeout_returns_not_timed_out() {
    let mut ledger = setup_ledger();
    let order_id: u64 = 60;
    let timeout = future_timeout(&ledger);

    EscrowContract::deposit(&mut ledger, order_id, address(1), address(2), 1_000_000, timeout)
        .unwrap();

    let result = EscrowContract::refund(&mut ledger, order_id);
    assert_eq!(result, Err(EscrowError::NotTimedOut));
}

#[test]
fn test_duplicate_deposit_returns_already_exists() {
    let mut ledger = setup_ledger();
    let order_id: u64 = 70;
    let timeout = future_timeout(&ledger);

    EscrowContract::deposit(&mut ledger, order_id, address(1), address(2), 1_000_000, timeout)
        .unwrap();
    let result =
        EscrowContract::deposit(&mut ledger, order_id, address(1), address(2), 1_000_000, timeout);
    assert_eq!(result, Err(EscrowError::AlreadyExists));
}

#[test]
fn test_release_nonexistent_order_returns_not_found() {
    let mut ledger = setup_ledger();
    let result = EscrowContract::release(&mut ledger, 999);
    assert_eq!(result, Err(EscrowError::NotFound));
}

#[test]
fn test_refund_nonexistent_order_returns_not_found() {
    let mut ledger = setup_ledger();
    let result = EscrowContract::refund(&mut ledger, 999);
    assert_eq!(result, Err(EscrowError::NotFound));
}

#[test]
fn get_escrow_of_a_nonexistent_order_is_not_found() {
    let ledger = setup_ledger();
    assert_eq!(EscrowContract::get_escrow(&ledger, 999), Err(EscrowError::NotFound));
}

#[test]
fn test_init_sets_admin() {
    let mut ledger = setup_ledger();
    let admin = address(9);
    assert_eq!(EscrowContract::init(&mut ledger, admin), Ok(()));
    assert_eq!(ledger.admin, Some(admin));
    assert_eq!(ledger.effects, vec![Effect::Put(DataKey::Admin)]);

    let result = EscrowContract::init(&mut ledger, admin);
    assert_eq!(result, Err(EscrowError::AlreadyInitialized));
}

#[test]
fn a_second_init_keeps_the_first_admin() {
    let mut ledger = setup_ledger();
    EscrowContract::init(&mut ledger, address(9)).unwrap();
    EscrowContract::init(&mut ledger, address(8)).unwrap_err();
    assert_eq!(ledger.admin, Some(address(9)));
}

#[test]
fn test_snapshot_requires_admin() {
    let env = Env::default();
    let mut ledger = setup_ledger();
    let result = EscrowContract::snapshot(&env, &mut ledger, &ids(&env, &[]));
    assert_eq!(result, Err(EscrowError::Unauthorized));
}

#[test]
fn test_snapshot_captures_active_balances() {
    let env = Env::default();
    let mut ledger = setup_ledger();
    let admin = address(9);
    let buyer1 = address(1);
    let buyer2 = address(2);
    let farmer = address(3);
    let timeout = future_timeout(&ledger);

    EscrowContract::init(&mut ledger, admin).unwrap();
    EscrowContract::deposit(&mut ledger, 1, buyer1, farmer, 1_000, timeout).unwrap();
    EscrowContract::deposit(&mut ledger, 2, buyer1, farmer, 2_000, timeout).unwrap();
    EscrowContract::deposit(&mut ledger, 3, buyer2, farmer, 500, timeout).unwrap();
    EscrowContract::deposit(&mut ledger, 4, buyer1, farmer, 9_999, timeout).unwrap();
    EscrowContract::release(&mut ledger, 4).unwrap();

    let order_ids = ids(&env, &[1, 2, 3, 4]);
    let snapshot_id = EscrowContract::snapshot(&env, &mut ledger, &order_ids).unwrap();
    assert_eq!(snapshot_id, 1);

    assert_eq!(EscrowContract::balance_at(&ledger, buyer1, snapshot_id), Ok(3_000));
    assert_eq!(EscrowContract::balance_at(&ledger, buyer2, snapshot_id), Ok(500));
    assert_eq!(EscrowContract::balance_at(&ledger, farmer, snapshot_id), Ok(0));
}

#[test]
fn test_snapshot_ids_are_sequential() {
    let env = Env::default();
    let mut ledger = setup_ledger();
    EscrowContract::init(&mut ledger, address(9)).unwrap();

    let none = ids(&env, &[]);
    let id1 = EscrowContract::snapshot(&env, &mut ledger, &none).unwrap();
    let id2 = EscrowContract::snapshot(&env, &mut ledger, &none).unwrap();
    let id3 = EscrowContract::snapshot(&env, &mut ledger, &none).unwrap();

    assert_eq!(id1, 1);
    assert_eq!(id2, 2);
    assert_eq!(id3, 3);
}

#[test]
fn test_snapshot_records_ledger_sequence() {
    let env = Env::default();
    let mut ledger = setup_ledger();
    let admin = address(9);
    EscrowContract::init(&mut ledger, admin).unwrap();

    let snapshot_id = EscrowContract::snapshot(&env, &mut ledger, &ids(&env, &[])).unwrap();

    assert!(EscrowContract::balance_at(&ledger, admin, snapshot_id).is_ok());
    assert_eq!(ledger.snapshots[&snapshot_id].ledger_sequence(), 1);
}

#[test]
fn test_balance_at_unknown_snapshot_returns_snapshot_not_found() {
    let ledger = setup_ledger();
    let result = EscrowContract::balance_at(&ledger, address(1), 99);
    assert_eq!(result, Err(EscrowError::SnapshotNotFound));
}

#[test]
fn test_snapshot_emits_event() {
    let env = Env::default();
    let mut ledger = setup_ledger();
    EscrowContract::init(&mut ledger, address(9)).unwrap();

    let snapshot_id = EscrowContract::snapshot(&env, &mut ledger, &ids(&env, &[])).unwrap();

    let event = *events(&ledger).last().unwrap();
    assert_eq!(event.topics(), vec![Topic::Symbol("escrow"), Topic::Symbol("snapshot")]);
    assert_eq!(event.data(), EventData::SnapshotId(snapshot_id));
}

#[test]
fn deposit_release_and_snapshot_ask_in_order() {
    let env = Env::default();
    let mut ledger = setup_ledger();
    let buyer = address(1);
    let farmer = address(2);
    let admin = address(9);
    let timeout = future_timeout(&ledger);
    EscrowContract::deposit(&mut ledger, 7, buyer, farmer, 12, timeout).unwrap();
    EscrowContract::release(&mut ledger, 7).unwrap();
    EscrowContract::init(&mut ledger, admin).unwrap();
    EscrowContract::snapshot(&env, &mut ledger, &ids(&env, &[7])).unwrap();
    assert_eq!(
        ledger.effects,
        vec![
            Effect::RequireAuth(buyer),
            Effect::Put(DataKey::Escrow(7)),
            extension(DataKey::Escrow(7)),
            Effect::Publish(Event::Deposit { order_id: 7, buyer, farmer, amount: 12 }),
            Effect::RequireAuth(buyer),
            Effect::Put(DataKey::Escrow(7)),
            extension(DataKey::Escrow(7)),
            Effect::Publish(Event::Release { order_id: 7, amount: 12 }),
            Effect::Put(DataKey::Admin),
            Effect::RequireAuth(admin),
            Effect::Put(DataKey::SnapshotSeq),
            Effect::Put(DataKey::Snapshot(1)),
            extension(DataKey::Snapshot(1)),
            Effect::Publish(Event::Snapshot { snapshot_id: 1 }),
        ]
    );
    assert_eq!((TTL_MIN, TTL_MAX), (100_000, 200_000));
}

#[test]
fn refund_is_permissionless_from_the_timeout_on() {
    let mut ledger = setup_ledger();
    let timeout = future_timeout(&ledger);
    EscrowContract::deposit(&mut ledger, 7, address(1), address(2), 12, timeout).unwrap();
    ledger.effects.clear();
    ledger.timestamp = timeout - 1;
    assert_eq!(EscrowContract::refund(&mut ledger, 7), Err(EscrowError::NotTimedOut));
    ledger.timestamp = timeout;
    assert_eq!(EscrowContract::refund(&mut ledger, 7), Ok(()));
    assert_eq!(
        ledger.effects,
        vec![
            Effect::Put(DataKey::Escrow(7)),
            extension(DataKey::Escrow(7)),
            Effect::Publish(Event::Refund { order_id: 7, amount: 12 }),
        ]
    );
    assert_eq!(EscrowContract::refund(&mut ledger, 7), Err(EscrowError::AlreadySettled));
    assert_eq!(EscrowContract::release(&mut ledger, 7), Err(EscrowError::AlreadySettled));
}

#[test]
fn settling_one_order_leaves_the_others() {
    let mut ledger = setup_ledger();
    let timeout = future_timeout(&ledger);
    EscrowContract::deposit(&mut ledger, 1, address(1), address(2), 10, timeout).unwrap();
    EscrowContract::deposit(&mut ledger, 2, address(3), address(4), 20, timeout).unwrap();
    let other = EscrowContract::get_escrow(&ledger, 2).unwrap();
    EscrowContract::release(&mut ledger, 1).unwrap();
    assert_eq!(EscrowContract::get_escrow(&ledger, 2), Ok(other));
    assert!(ledger.escrows[&1].released);
}

#[test]
fn snapshots_stay_as_they_were_taken() {
    let env = Env::default();
    let mut ledger = setup_ledger();
    let timeout = future_timeout(&ledger);
    EscrowContract::init(&mut ledger, address(9)).unwrap();
    EscrowContract::deposit(&mut ledger, 1, address(1), address(2), 10, timeout).unwrap();
    let order_ids = ids(&env, &[1]);
    let first = EscrowContract::snapshot(&env, &mut ledger, &order_ids).unwrap();
    EscrowContract::release(&mut ledger, 1).unwrap();
    ledger.sequence = 5;
    let second = EscrowContract::snapshot(&env, &mut ledger, &order_ids).unwrap();
    assert_eq!(EscrowContract::balance_at(&ledger, address(1), first), Ok(10));
    assert_eq!(EscrowContract::balance_at(&ledger, address(1), second), Ok(0));
    assert_eq!(ledger.snapshots[&first].ledger_sequence(), 1);
    assert_eq!(ledger.snapshots[&second].ledger_sequence(), 5);
}

#[test]
fn snapshot_counts_each_mention_and_skips_unknown_orders() {
    let env = Env::default();
    let mut ledger = setup_ledger();
    let timeout = future_timeout(&ledger);
    EscrowContract::init(&mut ledger, address(9)).unwrap();
    EscrowContract::deposit(&mut ledger, 1, address(1), address(2), 10, timeout).unwrap();
    let order_ids = ids(&env, &[1, 77, 1]);
    let snapshot_id = EscrowContract::snapshot(&env, &mut ledger, &order_ids).unwrap();
    assert_eq!(EscrowContract::balance_at(&ledger, address(1), snapshot_id), Ok(20));
    assert_eq!(ledger.snapshots[&snapshot_id].balances().len(), 1);
}

#[test]
fn snapshot_does_not_depend_on_the_sequence_of_orders() {
    let env = Env::default();
    let mut ledger = setup_ledger();
    let timeout = future_timeout(&ledger);
    EscrowContract::init(&mut ledger, address(9)).unwrap();
    for order_id in 1..=5u64 {
        EscrowContract::deposit(
            &mut ledger,
            order_id,
            address(order_id % 2),
            address(7),
            100 * order_id as i128,
            timeout,
        )
        .unwrap();
    }
    let up = ids(&env, &[1, 2, 3, 4, 5]);
    let mixed = ids(&env, &[4, 1, 5, 3, 2]);
    let a = EscrowContract::snapshot(&env, &mut ledger, &up).unwrap();
    let b = EscrowContract::snapshot(&env, &mut ledger, &mixed).unwrap();
    for id in 0..2u64 {
        assert_eq!(
            EscrowContract::balance_at(&ledger, address(id), a),
            EscrowContract::balance_at(&ledger, address(id), b)
        );
    }
    assert_eq!(EscrowContract::balance_at(&ledger, address(1), a), Ok(900));
    assert_eq!(EscrowContract::balance_at(&ledger, address(0), a), Ok(600));
}

#[test]
fn snapshot_that_overflows_is_not_taken() {
    let env = Env::default();
    let mut ledger = setup_ledger();
    let timeout = future_timeout(&ledger);
    EscrowContract::init(&mut ledger, address(9)).unwrap();
    EscrowContract::deposit(&mut ledger, 1, address(1), address(2), i128::MAX, timeout).unwrap();
    EscrowContract::deposit(&mut ledger, 2, address(1), address(2), 1, timeout).unwrap();
    EscrowContract::deposit(&mut ledger, 3, address(1), address(2), -1, timeout).unwrap();
    let before = ledger.effects.len();
    let too_much = ids(&env, &[1, 2, 3]);
    assert_eq!(EscrowContract::snapshot_checked(&env, &mut ledger, &too_much), None);
    assert!(EscrowContract::locked_balances(&env, &ledger, &too_much).is_none());
    assert_eq!(ledger.effects.len(), before);
    assert_eq!(ledger.snapshot_seq, None);
    let just_fits = ids(&env, &[1, 3, 2]);
    assert_eq!(EscrowContract::snapshot_checked(&env, &mut ledger, &just_fits), Some(Ok(1)));
    assert_eq!(EscrowContract::balance_at(&ledger, address(1), 1), Ok(i128::MAX));
}

#[test]
fn snapshot_numbers_run_out() {
    let env = Env::default();
    let mut ledger = setup_ledger();
    EscrowContract::init(&mut ledger, address(9)).unwrap();
    ledger.snapshot_seq = Some(u64::MAX - 1);
    let none = ids(&env, &[]);
    assert_eq!(EscrowContract::snapshot_checked(&env, &mut ledger, &none), Some(Ok(u64::MAX)));
    assert_eq!(EscrowContract::snapshot_checked(&env, &mut ledger, &none), None);
}

#[test]
fn snapshot_of_something_else_than_order_numbers_is_not_taken() {
    let env = Env::default();
    let mut ledger = setup_ledger();
    EscrowContract::init(&mut ledger, address(9)).unwrap();
    let flags: soroban_sdk::Vec<bool> = soroban_sdk::Vec::from_array(&env, [true]);
    let vals: soroban_sdk::Vec<soroban_sdk::Val> = flags.to_vals();
    let order_ids: soroban_sdk::Vec<u64> =
        soroban_sdk::TryFromVal::try_from_val(&env, &&vals).unwrap();
    assert_eq!(EscrowContract::snapshot_checked(&env, &mut ledger, &order_ids), None);
    assert!(EscrowContract::locked_balances(&env, &ledger, &order_ids).is_none());
}

#[test]
fn snapshot_is_read_back_from_its_entries() {
    let env = Env::default();
    let mut ledger = setup_ledger();
    let entries = vec![(address(1), 10), (address(2), -4), (address(1), 30)];
    ledger.snapshots.insert(3, SnapshotRecord::from_entries(&env, 12, &entries));
    assert_eq!(ledger.snapshots[&3].ledger_sequence(), 12);
    assert_eq!(ledger.snapshots[&3].balances().len(), 2);
    assert_eq!(EscrowContract::balance_at(&ledger, address(1), 3), Ok(30));
    assert_eq!(EscrowContract::balance_at(&ledger, address(2), 3), Ok(-4));
    assert_eq!(EscrowContract::balance_at(&ledger, address(3), 3), Ok(0));
}

#[test]
fn marketplace_error_numbers() {
    let errors = [
        EscrowError::AlreadyExists,
        EscrowError::NotFound,
        EscrowError::Unauthorized,
        EscrowError::NotTimedOut,
        EscrowError::AlreadySettled,
        EscrowError::InvalidParties,
        EscrowError::AlreadyInitialized,
        EscrowError::SnapshotNotFound,
    ];
    for (i, error) in errors.iter().enumerate() {
        assert_eq!(error.code(), i as u32 + 1);
    }
}

#[test]
fn a_deposit_keeps_its_terms_and_is_safe_for_an_hour() {
    let mut ledger = setup_ledger();
    let timeout = ledger.timestamp + 3_601;
    EscrowContract::deposit(&mut ledger, 1, address(1), address(2), 10, timeout).unwrap();
    let opened = EscrowContract::get_escrow(&ledger, 1).unwrap();
    ledger.timestamp += 3_600;
    assert_eq!(EscrowContract::refund(&mut ledger, 1), Err(EscrowError::NotTimedOut));
    assert_eq!(EscrowContract::get_escrow(&ledger, 1), Ok(opened));
    ledger.timestamp += 1;
    EscrowContract::refund(&mut ledger, 1).unwrap();
    let settled = EscrowContract::get_escrow(&ledger, 1).unwrap();
    assert_eq!((settled.buyer, settled.farmer), (opened.buyer, opened.farmer));
    assert_eq!((settled.amount, settled.timeout_unix), (10, timeout));
    assert!(settled.released);
}
