use farmers_escrow::address::Address;
use farmers_escrow::escrow::{
    Batch, BatchEntry, DataKey, Effect, Escrow, EscrowContract, EscrowError, EscrowStatus, Ledger,
};
use soroban_sdk::Env;

const CONTRACT: Address = Address { id: 1_000 };

fn address(id: u64) -> Address {
    Address { id }
}

fn setup_ledger() -> Ledger {
    Ledger::new(0, CONTRACT)
}

fn escrow_with(buyer: Address, farmer: Address, token: Address, status: EscrowStatus) -> Escrow {
    Escrow { buyer, farmer, token, amount: 1_000_0000, timeout_unix: 1_000, status }
}

fn store_escrow(ledger: &mut Ledger, order_id: u64, buyer: Address, farmer: Address, token: Address) {
    let escrow = escrow_with(buyer, farmer, token, EscrowStatus::Active);
    ledger.escrows.insert(order_id, escrow);
}

fn batch_deposit(ledger: &mut Ledger, entries: &Vec<BatchEntry>) -> Result<(), EscrowError> {
    let env = Env::default();
    EscrowContract::batch_deposit(ledger, &Batch::from_entries(&env, entries))
}

fn extension(order_id: u64) -> Effect {
    Effect::ExtendTtl {
        key: DataKey::Escrow(order_id),
        threshold: 100_000,
        extend_to: 200_000,
    }
}

fn transfer(token: Address, from: Address, to: Address, amount: i128) -> Effect {
    Effect::Transfer { token, from, to, amount }
}

fn held(ledger: &Ledger, token: Address) -> i128 {
    let mut held = 0;
    for effect in &ledger.effects {
        if let Effect::Transfer { token: moved, from, to, amount } = effect {
            if *moved == token {
                if *to == CONTRACT {
                    held += amount;
                }
                if *from == CONTRACT {
                    held -= amount;
                }
            }
        }
    }
    held
}

fn owed(ledger: &Ledger, token: Address) -> i128 {
    let mut owed = 0;
    for escrow in ledger.escrows.values() {
        let open = matches!(escrow.status, EscrowStatus::Active | EscrowStatus::Disputed);
        if escrow.token == token && open {
            owed += escrow.amount;
        }
    }
    owed
}

#[test]
fn dispute_sets_status_to_disputed() {
    let mut ledger = setup_ledger();
    let buyer = address(1);
    store_escrow(&mut ledger, 1, buyer, address(2), address(3));
    EscrowContract::dispute(&mut ledger, 1, buyer).unwrap();
    let updated = EscrowContract::get(&ledger, 1).unwrap();
    assert_eq!(updated.status, EscrowStatus::Disputed);
}

#[test]
fn release_disputed_escrow_returns_in_dispute_error() {
    let mut ledger = setup_ledger();
    let escrow = escrow_with(address(1), address(2), address(3), EscrowStatus::Disputed);
    ledger.escrows.insert(2, escrow);
    let result = EscrowContract::release(&mut ledger, 2, 0);
    assert_eq!(result, Err(EscrowError::InDispute));
}

#[test]
fn get_not_found() {
    let ledger = setup_ledger();
    let result = EscrowContract::get(&ledger, 99);
    assert_eq!(result, Err(EscrowError::NotFound));
}

#[test]
fn dispute_not_found() {
    let mut ledger = setup_ledger();
    let result = EscrowContract::dispute(&mut ledger, 99, address(1));
    assert_eq!(result, Err(EscrowError::NotFound));
}

#[test]
fn dispute_unauthorized() {
    let mut ledger = setup_ledger();
    store_escrow(&mut ledger, 3, address(1), address(2), address(3));
    let result = EscrowContract::dispute(&mut ledger, 3, address(4));
    assert_eq!(result, Err(EscrowError::Unauthorized));
}

#[test]
fn dispute_already_settled() {
    let mut ledger = setup_ledger();
    let buyer = address(1);
    let escrow = escrow_with(buyer, address(2), address(3), EscrowStatus::Released);
    ledger.escrows.insert(4, escrow);
    let result = EscrowContract::dispute(&mut ledger, 4, buyer);
    assert_eq!(result, Err(EscrowError::AlreadySettled));
}

#[test]
fn refund_timeout_not_reached() {
    let mut ledger = setup_ledger();
    store_escrow(&mut ledger, 5, address(1), address(2), address(3));
    let escrow = EscrowContract::get(&ledger, 5).unwrap();
    assert!(ledger.timestamp < escrow.timeout_unix);
    assert_eq!(EscrowContract::refund(&mut ledger, 5), Err(EscrowError::TimeoutNotReached));
}

#[test]
fn release_fee_exceeds_maximum() {
    let mut ledger = setup_ledger();
    store_escrow(&mut ledger, 6, address(1), address(2), address(3));
    let result = EscrowContract::release(&mut ledger, 6, 1001);
    assert_eq!(result, Err(EscrowError::InvalidAmount));
}

#[test]
fn release_not_found() {
    let mut ledger = setup_ledger();
    let result = EscrowContract::release(&mut ledger, 99, 250);
    assert_eq!(result, Err(EscrowError::NotFound));
}

#[test]
fn release_already_settled() {
    let mut ledger = setup_ledger();
    let escrow = escrow_with(address(1), address(2), address(3), EscrowStatus::Released);
    ledger.escrows.insert(7, escrow);
    let result = EscrowContract::release(&mut ledger, 7, 0);
    assert_eq!(result, Err(EscrowError::AlreadySettled));
}

#[test]
fn get_returns_escrow_data() {
    let mut ledger = setup_ledger();
    let buyer = address(1);
    let farmer = address(2);
    store_escrow(&mut ledger, 8, buyer, farmer, address(3));
    let stored = EscrowContract::get(&ledger, 8).unwrap();
    assert_eq!(stored.buyer, buyer);
    assert_eq!(stored.farmer, farmer);
    assert_eq!(stored.amount, 1_000_0000);
}

#[test]
fn get_escrow_returns_none_for_unknown_order() {
    let ledger = setup_ledger();
    let result = EscrowContract::get_escrow(&ledger, 999);
    assert!(result.is_none());
}

#[test]
fn get_escrow_returns_correct_data_after_create() {
    let mut ledger = setup_ledger();
    let buyer = address(1);
    let farmer = address(2);
    let token = address(3);
    store_escrow(&mut ledger, 9, buyer, farmer, token);
    let result = EscrowContract::get_escrow(&ledger, 9);
    assert!(result.is_some());
    let escrow = result.unwrap();
    assert_eq!(escrow.buyer, buyer);
    assert_eq!(escrow.farmer, farmer);
    assert_eq!(escrow.amount, 1_000_0000);
    assert_eq!(escrow.status, EscrowStatus::Active);
    assert_eq!(escrow.token, token);
}

#[test]
fn two_escrows_have_independent_keys() {
    let mut ledger = setup_ledger();
    let buyer_b = address(3);
    let token = address(5);
    store_escrow(&mut ledger, 10, address(1), address(2), token);
    store_escrow(&mut ledger, 11, buyer_b, address(4), token);

    EscrowContract::release(&mut ledger, 10, 0).unwrap();
    assert_eq!(EscrowContract::get(&ledger, 10).unwrap().status, EscrowStatus::Released);

    let e11 = EscrowContract::get(&ledger, 11).unwrap();
    assert_eq!(
        e11.status,
        EscrowStatus::Active,
        "escrow 11 must not be affected by escrow 10 mutation"
    );
    assert_eq!(e11.buyer, buyer_b);
}

#[test]
fn fee_rounding() {
    let fee = EscrowContract::platform_fee(1, 250);
    assert_eq!(fee, 0);
    let fee2 = EscrowContract::platform_fee(40_000, 250);
    assert_eq!(fee2, 1_000);
}

#[test]
fn fee_zero_bps() {
    let amount: i128 = 1_000_0000;
    let fee = EscrowContract::platform_fee(amount, 0);
    assert_eq!(fee, 0);
    assert_eq!(amount - fee, 1_000_0000);
}

#[test]
fn fee_250_bps() {
    let amount: i128 = 1_000_0000;
    let fee = EscrowContract::platform_fee(amount, 250);
    assert_eq!(fee, 25_0000);
    assert_eq!(amount - fee, 975_0000);
}

#[test]
fn fee_of_a_negative_amount_rounds_towards_zero() {
    assert_eq!(EscrowContract::platform_fee(-39, 250), 0);
    assert_eq!(EscrowContract::platform_fee(-40_000, 250), -1_000);
    assert_eq!(EscrowContract::platform_fee(-40_039, 250), -1_000);
}

#[test]
fn escrow_stores_token_address() {
    let mut ledger = setup_ledger();
    let token = address(3);
    store_escrow(&mut ledger, 20, address(1), address(2), token);
    let escrow = EscrowContract::get(&ledger, 20).unwrap();
    assert_eq!(escrow.token, token);
}

#[test]
fn two_escrows_can_use_different_tokens() {
    let mut ledger = setup_ledger();
    let token_a = address(3);
    let token_b = address(4);
    store_escrow(&mut ledger, 21, address(1), address(2), token_a);
    store_escrow(&mut ledger, 22, address(1), address(2), token_b);
    assert_eq!(EscrowContract::get(&ledger, 21).unwrap().token, token_a);
    assert_eq!(EscrowContract::get(&ledger, 22).unwrap().token, token_b);
}

#[test]
fn batch_deposit_rejects_zero_amount() {
    let mut ledger = setup_ledger();
    let entries = vec![(100_u64, address(1), address(2), address(3), 0_i128, 9999_u64)];
    let result = batch_deposit(&mut ledger, &entries);
    assert_eq!(result, Err(EscrowError::InvalidAmount));
}

#[test]
fn batch_deposit_rejects_negative_amount() {
    let mut ledger = setup_ledger();
    let entries = vec![(101_u64, address(1), address(2), address(3), -1_i128, 9999_u64)];
    let result = batch_deposit(&mut ledger, &entries);
    assert_eq!(result, Err(EscrowError::InvalidAmount));
}

#[test]
fn batch_deposit_rejects_duplicate_order_id() {
    let mut ledger = setup_ledger();
    store_escrow(&mut ledger, 200, address(1), address(2), address(3));
    let entries = vec![(200_u64, address(1), address(2), address(3), 1000_i128, 9999_u64)];
    let result = batch_deposit(&mut ledger, &entries);
    assert_eq!(result, Err(EscrowError::AlreadyExists));
}

#[test]
fn fuzz_deposit_amount_guard_positive_values() {
    let amounts: &[i128] = &[1, 2, 100, 1_000, i128::MAX / 2, i128::MAX];
    for &amount in amounts {
        let mut ledger = setup_ledger();
        let order_id = amount as u64;
        let escrow = Escrow {
            buyer: address(1),
            farmer: address(2),
            token: address(3),
            amount,
            timeout_unix: 9999,
            status: EscrowStatus::Active,
        };
        ledger.escrows.insert(order_id, escrow);
        let stored = EscrowContract::get(&ledger, order_id).unwrap();
        assert_eq!(stored.amount, amount);

        let mut fresh = setup_ledger();
        let result = EscrowContract::deposit(
            &mut fresh,
            address(3),
            order_id,
            address(1),
            address(2),
            amount,
            9999,
        );
        assert_eq!(result, Ok(()));
        assert_eq!(EscrowContract::get(&fresh, order_id), Ok(escrow));
    }
}

#[test]
fn fuzz_deposit_rejects_non_positive_amounts() {
    let bad_amounts: &[i128] = &[0, -1, -100, i128::MIN];
    for &amount in bad_amounts {
        let mut ledger = setup_ledger();
        let buyer = address(1);
        let farmer = address(2);
        let token = address(3);
        let result =
            EscrowContract::deposit(&mut ledger, token, 1, buyer, farmer, amount, 9999);
        assert_eq!(
            result,
            Err(EscrowError::InvalidAmount),
            "amount={amount} should be rejected"
        );
        let entries = vec![(1_u64, buyer, farmer, token, amount, 9999_u64)];
        let batch_result = batch_deposit(&mut ledger, &entries);
        assert_eq!(batch_result, Err(EscrowError::InvalidAmount));
    }
}

#[test]
fn fuzz_release_then_refund_ordering() {
    let mut ledger = setup_ledger();
    let escrow = Escrow {
        buyer: address(1),
        farmer: address(2),
        token: address(3),
        amount: 1_000,
        timeout_unix: 0,
        status: EscrowStatus::Released,
    };
    ledger.escrows.insert(300, escrow);
    let result = EscrowContract::refund(&mut ledger, 300);
    assert_eq!(result, Err(EscrowError::AlreadySettled));
}

#[test]
fn fuzz_refund_then_release_ordering() {
    let mut ledger = setup_ledger();
    let escrow = Escrow {
        buyer: address(1),
        farmer: address(2),
        token: address(3),
        amount: 1_000,
        timeout_unix: 0,
        status: EscrowStatus::Refunded,
    };
    ledger.escrows.insert(301, escrow);
    let result = EscrowContract::release(&mut ledger, 301, 0);
    assert_eq!(result, Err(EscrowError::AlreadySettled));
}

#[test]
fn fuzz_timeout_boundary_conditions() {
    let cases: &[(u64, u64, bool)] = &[
        (0, 1, true),
        (999, 1_000, true),
        (1_000, 1_000, false),
        (1_001, 1_000, false),
        (u64::MAX, 1_000, false),
        (0, 0, false),
    ];
    for &(ts, timeout_unix, expect_err) in cases {
        let mut ledger = setup_ledger();
        ledger.timestamp = ts;
        let escrow = Escrow {
            buyer: address(1),
            farmer: address(2),
            token: address(3),
            amount: 1_000,
            timeout_unix,
            status: EscrowStatus::Active,
        };
        ledger.escrows.insert(400, escrow);

        let timed_out = ts >= timeout_unix;
        if expect_err {
            assert!(
                !timed_out,
                "ts={ts} timeout={timeout_unix}: expected timeout not reached"
            );
        } else {
            assert!(timed_out, "ts={ts} timeout={timeout_unix}: expected timeout reached");
        }

        let result = EscrowContract::refund(&mut ledger, 400);
        if expect_err {
            assert_eq!(
                result,
                Err(EscrowError::TimeoutNotReached),
                "ts={ts} timeout={timeout_unix}"
            );
        } else {
            assert_ne!(
                result,
                Err(EscrowError::TimeoutNotReached),
                "ts={ts} timeout={timeout_unix}"
            );
            assert_eq!(result, Ok(()));
        }
    }
}

#[test]
fn fuzz_fee_calculation_never_negative() {
    let amounts: &[i128] = &[1, 7, 100, 10_000, 1_000_000, i128::MAX / 10_000];
    let fees_bps: &[u32] = &[0, 1, 250, 500, 999, 1000];
    for &amount in amounts {
        for &bps in fees_bps {
            let fee = EscrowContract::platform_fee(amount, bps);
            let farmer_amount = amount - fee;
            assert!(
                farmer_amount >= 0,
                "amount={amount} bps={bps} farmer_amount={farmer_amount}"
            );
            assert!(fee >= 0, "fee must be non-negative");
            assert!(fee <= amount, "fee must not exceed amount");
        }
    }
}

#[test]
fn fuzz_release_rejects_excessive_fee_bps() {
    let bad_fees: &[u32] = &[1001, 1002, 5000, 10_000, u32::MAX];
    for &bps in bad_fees {
        let mut ledger = setup_ledger();
        store_escrow(&mut ledger, 500, address(1), address(2), address(3));
        let result = EscrowContract::release(&mut ledger, 500, bps);
        assert_eq!(result, Err(EscrowError::InvalidAmount), "bps={bps} should be rejected");
    }
}

#[test]
fn deposit_pays_in_and_writes() {
    let mut ledger = setup_ledger();
    let (buyer, farmer, token) = (address(1), address(2), address(3));
    EscrowContract::deposit(&mut ledger, token, 5, buyer, farmer, 70, 1_000).unwrap();
    assert_eq!(
        ledger.effects,
        vec![
            Effect::RequireAuth(buyer),
            transfer(token, buyer, CONTRACT, 70),
            Effect::Put(DataKey::Escrow(5)),
            extension(5),
        ]
    );
    let result = EscrowContract::deposit(&mut ledger, token, 5, buyer, farmer, 70, 1_000);
    assert_eq!(result, Err(EscrowError::AlreadyExists));
    assert_eq!(ledger.effects.len(), 5);
    assert_eq!(ledger.effects[4], Effect::RequireAuth(buyer));
}

#[test]
fn deposit_with_a_bad_amount_is_refused_before_the_number_is_looked_up() {
    let mut ledger = setup_ledger();
    store_escrow(&mut ledger, 5, address(1), address(2), address(3));
    let result =
        EscrowContract::deposit(&mut ledger, address(3), 5, address(1), address(2), 0, 1_000);
    assert_eq!(result, Err(EscrowError::InvalidAmount));
}

#[test]
fn batch_is_refused_for_its_first_faulty_entry_and_changes_nothing() {
    let mut ledger = setup_ledger();
    let (b, f, t) = (address(1), address(2), address(3));
    store_escrow(&mut ledger, 7, b, f, t);
    let good = (1_u64, b, f, t, 10_i128, 50_u64);
    let taken = (7_u64, b, f, t, 10_i128, 50_u64);
    let empty = (2_u64, b, f, t, 0_i128, 50_u64);
    let first = batch_deposit(&mut ledger, &vec![good, taken, empty]);
    assert_eq!(first, Err(EscrowError::AlreadyExists));
    let second = batch_deposit(&mut ledger, &vec![good, empty, taken]);
    assert_eq!(second, Err(EscrowError::InvalidAmount));
    assert!(ledger.effects.is_empty());
    assert_eq!(ledger.escrows.len(), 1);
    assert_eq!(EscrowContract::get_escrow(&ledger, 1), None);
}

#[test]
fn batch_opens_every_entry_in_order() {
    let mut ledger = setup_ledger();
    let (b1, b2, f, t1, t2) = (address(1), address(2), address(3), address(4), address(5));
    let entries =
        vec![(1_u64, b1, f, t1, 10_i128, 50_u64), (2_u64, b2, f, t2, 20_i128, 60_u64)];
    assert_eq!(batch_deposit(&mut ledger, &entries), Ok(()));
    assert_eq!(
        ledger.effects,
        vec![
            Effect::RequireAuth(b1),
            transfer(t1, b1, CONTRACT, 10),
            Effect::Put(DataKey::Escrow(1)),
            extension(1),
            Effect::RequireAuth(b2),
            transfer(t2, b2, CONTRACT, 20),
            Effect::Put(DataKey::Escrow(2)),
            extension(2),
        ]
    );
    let second = EscrowContract::get(&ledger, 2).unwrap();
    assert_eq!(
        second,
        Escrow {
            buyer: b2,
            farmer: f,
            token: t2,
            amount: 20,
            timeout_unix: 60,
            status: EscrowStatus::Active,
        }
    );
    assert_eq!(batch_deposit(&mut ledger, &vec![]), Ok(()));
}

#[test]
fn of_two_entries_with_one_number_the_later_is_kept() {
    let mut ledger = setup_ledger();
    let (b, f, t) = (address(1), address(2), address(3));
    let entries = vec![(1_u64, b, f, t, 10_i128, 50_u64), (1_u64, b, f, t, 20_i128, 60_u64)];
    assert_eq!(batch_deposit(&mut ledger, &entries), Ok(()));
    assert_eq!(EscrowContract::get(&ledger, 1).unwrap().amount, 20);
    assert_eq!(held(&ledger, t), 30);
    assert_eq!(owed(&ledger, t), 20);
}

#[test]
fn release_pays_platform_and_farmer() {
    let mut ledger = setup_ledger();
    let (buyer, farmer, token, platform) = (address(1), address(2), address(3), address(4));
    EscrowContract::init(&mut ledger, platform);
    assert_eq!(ledger.platform, Some(platform));
    store_escrow(&mut ledger, 6, buyer, farmer, token);
    assert_eq!(EscrowContract::release(&mut ledger, 6, 250), Ok(()));
    assert_eq!(
        ledger.effects,
        vec![
            Effect::Put(DataKey::Platform),
            Effect::RequireAuth(buyer),
            transfer(token, CONTRACT, platform, 25_0000),
            transfer(token, CONTRACT, farmer, 975_0000),
            Effect::Put(DataKey::Escrow(6)),
            extension(6),
        ]
    );
    assert_eq!(EscrowContract::get(&ledger, 6).unwrap().status, EscrowStatus::Released);
}

#[test]
fn release_without_a_platform_works_only_without_a_fee() {
    let mut ledger = setup_ledger();
    let (buyer, farmer, token) = (address(1), address(2), address(3));
    store_escrow(&mut ledger, 6, buyer, farmer, token);
    assert_eq!(EscrowContract::release(&mut ledger, 6, 250), Err(EscrowError::NotFound));
    assert_eq!(ledger.effects, vec![Effect::RequireAuth(buyer)]);
    assert_eq!(EscrowContract::get(&ledger, 6).unwrap().status, EscrowStatus::Active);
    assert_eq!(EscrowContract::release(&mut ledger, 6, 0), Ok(()));
    assert!(ledger.effects.contains(&transfer(token, CONTRACT, farmer, 1_000_0000)));
}

#[test]
fn release_fits_unless_the_fee_overflows() {
    let mut ledger = setup_ledger();
    let mut escrow = escrow_with(address(1), address(2), address(3), EscrowStatus::Active);
    escrow.amount = i128::MAX;
    ledger.escrows.insert(1, escrow);
    assert!(!EscrowContract::release_fits(&ledger, 1, 2));
    assert!(EscrowContract::release_fits(&ledger, 1, 1));
    assert!(EscrowContract::release_fits(&ledger, 1, 0));
    assert!(EscrowContract::release_fits(&ledger, 1, 1001));
    assert!(EscrowContract::release_fits(&ledger, 2, 1000));
    escrow.amount = i128::MAX / 1000;
    ledger.escrows.insert(1, escrow);
    assert!(EscrowContract::release_fits(&ledger, 1, 1000));
    escrow.amount = i128::MAX;
    escrow.status = EscrowStatus::Disputed;
    ledger.escrows.insert(1, escrow);
    assert!(EscrowContract::release_fits(&ledger, 1, 1000));
}

#[test]
fn refund_returns_the_whole_amount() {
    let mut ledger = setup_ledger();
    let (buyer, farmer, token) = (address(1), address(2), address(3));
    EscrowContract::deposit(&mut ledger, token, 5, buyer, farmer, 70, 1_000).unwrap();
    ledger.effects.clear();
    ledger.timestamp = 1_000;
    assert_eq!(EscrowContract::refund(&mut ledger, 5), Ok(()));
    assert_eq!(
        ledger.effects,
        vec![
            Effect::RequireAuth(buyer),
            transfer(token, CONTRACT, buyer, 70),
            Effect::Put(DataKey::Escrow(5)),
            extension(5),
        ]
    );
    assert_eq!(EscrowContract::get(&ledger, 5).unwrap().status, EscrowStatus::Refunded);
}

#[test]
fn refund_of_an_unknown_order_asks_for_nothing() {
    let mut ledger = setup_ledger();
    assert_eq!(EscrowContract::refund(&mut ledger, 5), Err(EscrowError::NotFound));
    assert!(ledger.effects.is_empty());
}

#[test]
fn a_disputed_order_is_refunded_after_its_timeout() {
    let mut ledger = setup_ledger();
    let farmer = address(2);
    store_escrow(&mut ledger, 5, address(1), farmer, address(3));
    EscrowContract::dispute(&mut ledger, 5, farmer).unwrap();
    assert_eq!(EscrowContract::refund(&mut ledger, 5), Err(EscrowError::TimeoutNotReached));
    ledger.timestamp = 1_000;
    assert_eq!(EscrowContract::refund(&mut ledger, 5), Ok(()));
}

#[test]
fn set_admin_names_the_admin() {
    let mut ledger = setup_ledger();
    let admin = address(9);
    EscrowContract::set_admin(&mut ledger, admin);
    assert_eq!(ledger.admin, Some(admin));
    assert_eq!(
        ledger.effects,
        vec![Effect::RequireAuth(admin), Effect::Put(DataKey::Admin)]
    );
}

#[test]
fn resolution_pays_the_whole_amount_to_one_side() {
    for release_to_farmer in [true, false] {
        let mut ledger = setup_ledger();
        let (buyer, farmer, token, admin) = (address(1), address(2), address(3), address(9));
        ledger.admin = Some(admin);
        let escrow = escrow_with(buyer, farmer, token, EscrowStatus::Disputed);
        ledger.escrows.insert(5, escrow);
        EscrowContract::resolve_dispute(&mut ledger, 5, release_to_farmer);
        let (to, status) = if release_to_farmer {
            (farmer, EscrowStatus::Released)
        } else {
            (buyer, EscrowStatus::Refunded)
        };
        assert_eq!(
            ledger.effects,
            vec![
                Effect::RequireAuth(admin),
                transfer(token, CONTRACT, to, 1_000_0000),
                Effect::Put(DataKey::Escrow(5)),
                extension(5),
            ]
        );
        assert_eq!(EscrowContract::get(&ledger, 5).unwrap().status, status);
        assert_eq!(EscrowContract::release(&mut ledger, 5, 0), Err(EscrowError::AlreadySettled));
        assert_eq!(EscrowContract::refund(&mut ledger, 5), Err(EscrowError::AlreadySettled));
        assert_eq!(
            EscrowContract::dispute(&mut ledger, 5, buyer),
            Err(EscrowError::AlreadySettled)
        );
    }
}

#[test]
fn the_contract_holds_what_it_owes() {
    let mut ledger = setup_ledger();
    let (b, f, t1, t2) = (address(1), address(2), address(3), address(4));
    EscrowContract::init(&mut ledger, address(8));
    EscrowContract::set_admin(&mut ledger, address(9));
    let entries = vec![
        (1_u64, b, f, t1, 1_003_i128, 100_u64),
        (2_u64, b, f, t2, 500_i128, 100_u64),
        (3_u64, b, f, t1, 77_i128, 100_u64),
    ];
    batch_deposit(&mut ledger, &entries).unwrap();
    EscrowContract::deposit(&mut ledger, t1, 4, b, f, 9, 100).unwrap();
    assert_eq!(held(&ledger, t1), 1_089);
    assert_eq!(owed(&ledger, t1), 1_089);
    EscrowContract::release(&mut ledger, 1, 333).unwrap();
    assert_eq!(held(&ledger, t1), 86);
    assert_eq!(owed(&ledger, t1), 86);
    EscrowContract::dispute(&mut ledger, 3, f).unwrap();
    assert_eq!(held(&ledger, t1), owed(&ledger, t1));
    EscrowContract::resolve_dispute(&mut ledger, 3, true);
    assert_eq!(held(&ledger, t1), 9);
    assert_eq!(owed(&ledger, t1), 9);
    ledger.timestamp = 100;
    EscrowContract::refund(&mut ledger, 4).unwrap();
    EscrowContract::refund(&mut ledger, 2).unwrap();
    assert_eq!(held(&ledger, t1), 0);
    assert_eq!(held(&ledger, t2), 0);
    assert_eq!(owed(&ledger, t2), 0);
}

#[test]
fn escrow_error_numbers() {
    let errors = [
        EscrowError::NotFound,
        EscrowError::AlreadySettled,
        EscrowError::InDispute,
        EscrowError::Unauthorized,
        EscrowError::InvalidAmount,
        EscrowError::AlreadyExists,
        EscrowError::TimeoutNotReached,
    ];
    for (i, error) in errors.iter().enumerate() {
        assert_eq!(error.code(), i as u32 + 1);
    }
}

#[test]
fn a_batch_holds_its_deposits_in_order() {
    let env = Env::default();
    let entries = vec![
        (u64::MAX, address(1), address(2), address(u64::MAX), i128::MAX, 9_u64),
        (0_u64, address(0), address(5), address(6), i128::MIN, u64::MAX),
        (7_u64, address(4), address(4), address(4), -1_i128, 0_u64),
    ];
    let batch = Batch::from_entries(&env, &entries);
    assert_eq!(batch.len(), 3);
    assert_eq!(batch.get(0), entries[0]);
    assert_eq!(batch.get(1), entries[1]);
    assert_eq!(batch.get(2), entries[2]);
    assert_eq!(Batch::from_entries(&env, &vec![]).len(), 0);
}

#[test]
fn an_order_keeps_its_terms_and_the_contract_its_admin() {
    let mut ledger = setup_ledger();
    let (buyer, farmer, token, admin) = (address(1), address(2), address(3), address(9));
    EscrowContract::set_admin(&mut ledger, admin);
    EscrowContract::deposit(&mut ledger, token, 5, buyer, farmer, 70, 1_000).unwrap();
    let opened = EscrowContract::get(&ledger, 5).unwrap();
    EscrowContract::dispute(&mut ledger, 5, farmer).unwrap();
    let disputed = Escrow { status: EscrowStatus::Disputed, ..opened };
    assert_eq!(EscrowContract::get(&ledger, 5), Ok(disputed));
    let again = EscrowContract::deposit(&mut ledger, address(6), 5, address(7), farmer, 1, 2);
    assert_eq!(again, Err(EscrowError::AlreadyExists));
    EscrowContract::resolve_dispute(&mut ledger, 5, false);
    let refunded = Escrow { status: EscrowStatus::Refunded, ..opened };
    assert_eq!(EscrowContract::get(&ledger, 5), Ok(refunded));
    assert_eq!(ledger.admin, Some(admin));
}
