use matrix_system::addr::Addr;
use matrix_system::errors::ErrorCode;
use matrix_system::matrix::{
    build_child_upline_entries, build_child_user, initialize, initialize_base_user_data,
    place_in_matrix,
};
use matrix_system::model::{ReferralChain, UplineEntry};
use matrix_system::MAX_UPLINE_DEPTH;

fn addr(n: u64) -> Addr {
    Addr::new(n, 0, 0, 0)
}

fn entry(n: u64) -> UplineEntry {
    UplineEntry { pda: addr(n), wallet: addr(n + 1000) }
}

#[test]
fn initialize_rejects_unauthorized_caller() {
    let r = initialize(addr(1), addr(2), addr(3));
    assert_eq!(r, Err(ErrorCode::NotAuthorized));
}

#[test]
fn initialize_sets_fresh_counters() {
    let state = initialize(addr(1), addr(1), addr(3)).unwrap();
    assert_eq!(state.owner, addr(1));
    assert_eq!(state.multisig_treasury, addr(3));
    assert_eq!(state.next_upline_id, 1);
    assert_eq!(state.next_chain_id, 1);
    assert!(state.airdrop_active);
    assert_eq!(state.airdrop_end_timestamp, 0);
}

#[test]
fn base_user_starts_empty() {
    let user = initialize_base_user_data(&addr(7), 1, 1);
    assert!(user.is_registered);
    assert_eq!(user.referrer, None);
    assert_eq!(user.owner_wallet, addr(7));
    assert_eq!(user.upline.depth, 1);
    assert!(user.upline.upline.is_empty());
    assert_eq!(user.chain.id, 1);
    assert_eq!(user.chain.filled_slots, 0);
    assert_eq!(user.chain.slots, vec![None, None, None]);
    assert_eq!(user.reserved_sol, 0);
}

// Slot cycling: three placements fill slots 1, 2, 3, and the third resets
// the matrix in place under the freshly drawn identifier.
#[test]
fn slot_cycling_three_placements() {
    let mut referrer = initialize_base_user_data(&addr(7), 1, 1);
    let owner_pda = addr(50);

    let (done1, ev1) = place_in_matrix(&mut referrer, &owner_pda, &addr(101), 10);
    assert!(!done1);
    let ev1 = ev1.unwrap();
    assert_eq!(ev1.slot_idx, 0);
    assert_eq!(ev1.chain_id, 1);
    assert_eq!(ev1.user, addr(101));
    assert_eq!(ev1.owner, owner_pda);
    assert_eq!(referrer.chain.filled_slots, 1);
    assert_eq!(referrer.chain.id, 1);
    assert_eq!(referrer.chain.slots[0], Some(addr(101)));

    let (done2, ev2) = place_in_matrix(&mut referrer, &owner_pda, &addr(102), 11);
    assert!(!done2);
    assert_eq!(ev2.unwrap().slot_idx, 1);
    assert_eq!(referrer.chain.filled_slots, 2);
    assert_eq!(referrer.chain.id, 1);

    let (done3, ev3) = place_in_matrix(&mut referrer, &owner_pda, &addr(103), 12);
    assert!(done3);
    let ev3 = ev3.unwrap();
    assert_eq!(ev3.slot_idx, 2);
    assert_eq!(ev3.chain_id, 1);
    assert_eq!(referrer.chain.filled_slots, 0);
    assert_eq!(referrer.chain.id, 12);
    assert_eq!(referrer.chain.slots, vec![None, None, None]);
}

#[test]
fn placement_on_full_matrix_is_a_no_op() {
    let mut account = initialize_base_user_data(&addr(7), 1, 1);
    account.chain = ReferralChain {
        id: 4,
        slots: vec![Some(addr(1)), Some(addr(2)), Some(addr(3))],
        filled_slots: 3,
    };
    let before = account.clone();
    let (done, ev) = place_in_matrix(&mut account, &addr(50), &addr(9), 99);
    assert!(!done);
    assert!(ev.is_none());
    assert_eq!(account, before);
}

#[test]
fn child_upline_appends_below_capacity() {
    let stored = vec![entry(1), entry(2)];
    let built = build_child_upline_entries(&stored, entry(3));
    assert_eq!(built, vec![entry(1), entry(2), entry(3)]);
}

#[test]
fn child_upline_truncates_at_capacity() {
    let stored: Vec<UplineEntry> = (1..=MAX_UPLINE_DEPTH as u64).map(entry).collect();
    let built = build_child_upline_entries(&stored, entry(99));
    // The oldest entry drops out; the most recent five stay, the new one last.
    let mut expected: Vec<UplineEntry> = (2..=MAX_UPLINE_DEPTH as u64).map(entry).collect();
    expected.push(entry(99));
    assert_eq!(built, expected);
    assert_eq!(built.len(), MAX_UPLINE_DEPTH);
}

#[test]
fn child_user_copies_referrer_chain() {
    let mut referrer = initialize_base_user_data(&addr(7), 1, 1);
    referrer.upline.upline = vec![entry(1)];
    referrer.upline.depth = 2;
    let child = build_child_user(&addr(20), &addr(30), &addr(7), &referrer, 5, 6);
    assert!(child.is_registered);
    assert_eq!(child.referrer, Some(addr(30)));
    assert_eq!(child.owner_wallet, addr(20));
    assert_eq!(child.upline.id, 5);
    assert_eq!(child.upline.depth, 3);
    assert_eq!(
        child.upline.upline,
        vec![entry(1), UplineEntry { pda: addr(30), wallet: addr(7) }]
    );
    assert_eq!(child.chain.id, 6);
    assert_eq!(child.chain.filled_slots, 0);
    assert_eq!(child.reserved_sol, 0);
}
