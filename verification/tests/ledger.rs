use matrix_system::addr::Addr;
use matrix_system::errors::ErrorCode;
use matrix_system::matrix::initialize;
use matrix_system::notify::{
    derive_program_state_pda, derive_user_account_pda, derive_weekly_data_pda, find_account_index,
    ledger_report_outcome, locate_airdrop_state, plan_airdrop_notification,
    refresh_airdrop_status, user_exists_in_airdrop, LedgerAccountInfo, AIRDROP_LIFETIME_SECONDS,
};
use solana_program::pubkey::Pubkey;

fn addr(n: u64) -> Addr {
    Addr::new(n, 0, 0, 0)
}

fn addr_to_pubkey(a: &Addr) -> Pubkey {
    let mut b = [0u8; 32];
    b[0..8].copy_from_slice(&a.w0.to_le_bytes());
    b[8..16].copy_from_slice(&a.w1.to_le_bytes());
    b[16..24].copy_from_slice(&a.w2.to_le_bytes());
    b[24..32].copy_from_slice(&a.w3.to_le_bytes());
    Pubkey::new_from_array(b)
}

fn pubkey_to_addr(p: &Pubkey) -> Addr {
    let b = p.to_bytes();
    Addr::new(
        u64::from_le_bytes(b[0..8].try_into().unwrap()),
        u64::from_le_bytes(b[8..16].try_into().unwrap()),
        u64::from_le_bytes(b[16..24].try_into().unwrap()),
        u64::from_le_bytes(b[24..32].try_into().unwrap()),
    )
}

fn account(key: Addr) -> LedgerAccountInfo {
    LedgerAccountInfo { key, owned_by_ledger: true, has_lamports: true, has_data: true }
}

// The derivation agrees with the host SDK, for each seed shape.
#[test]
fn derivations_match_the_host_sdk() {
    let wallet = Addr::new(1, 2, 3, 4);
    let program = Addr::new(5, 6, 7, 8);
    let program_pk = addr_to_pubkey(&program);

    let wallet_pk = addr_to_pubkey(&wallet);
    let (expected_user, _) =
        Pubkey::find_program_address(&[b"user_account", wallet_pk.as_ref()], &program_pk);
    assert_eq!(
        derive_user_account_pda(&wallet, &program),
        Some(pubkey_to_addr(&expected_user))
    );

    let (expected_state, _) = Pubkey::find_program_address(&[b"program_state"], &program_pk);
    assert_eq!(
        derive_program_state_pda(&program),
        Some(pubkey_to_addr(&expected_state))
    );

    let week: u8 = 7;
    let (expected_week, _) =
        Pubkey::find_program_address(&[b"weekly_data", &week.to_le_bytes()], &program_pk);
    assert_eq!(
        derive_weekly_data_pda(week, &program),
        Some(pubkey_to_addr(&expected_week))
    );

    // Different wallets derive different accounts.
    let other = Addr::new(9, 9, 9, 9);
    assert_ne!(
        derive_user_account_pda(&wallet, &program),
        derive_user_account_pda(&other, &program)
    );
}

#[test]
fn account_scan_finds_first_match() {
    let accounts = vec![account(addr(1)), account(addr(2)), account(addr(2))];
    assert_eq!(find_account_index(&accounts, &addr(2)), Some(1));
    assert_eq!(find_account_index(&accounts, &addr(9)), None);
}

#[test]
fn user_existence_needs_a_live_derived_account() {
    let wallet = Addr::new(1, 2, 3, 4);
    let program = Addr::new(5, 6, 7, 8);
    let pda = derive_user_account_pda(&wallet, &program).unwrap();

    let live = vec![account(addr(1)), account(pda)];
    assert!(user_exists_in_airdrop(&live, &wallet, &program));

    // The wallet's own key in place of the derived account is not enough.
    let wrong = vec![account(addr(1)), account(wallet)];
    assert!(!user_exists_in_airdrop(&wrong, &wallet, &program));

    // A found but empty account does not count.
    let empty = vec![LedgerAccountInfo { has_data: false, ..account(pda) }];
    assert!(!user_exists_in_airdrop(&empty, &wallet, &program));

    // A found account owned by someone else does not count.
    let foreign = vec![LedgerAccountInfo { owned_by_ledger: false, ..account(pda) }];
    assert!(!user_exists_in_airdrop(&foreign, &wallet, &program));
}

#[test]
fn state_account_is_located_or_missing() {
    let program = Addr::new(5, 6, 7, 8);
    let state_pda = derive_program_state_pda(&program).unwrap();
    let accounts = vec![account(addr(1)), account(state_pda)];
    assert_eq!(locate_airdrop_state(&accounts, &program), Ok(1));
    let without = vec![account(addr(1))];
    assert_eq!(
        locate_airdrop_state(&without, &program),
        Err(ErrorCode::MissingUplineAccount)
    );
}

#[test]
fn notification_plan_frames_payload_and_accounts() {
    let wallet = Addr::new(1, 2, 3, 4);
    let program = Addr::new(5, 6, 7, 8);
    let user_pda = derive_user_account_pda(&wallet, &program).unwrap();
    let accounts = vec![account(user_pda), account(wallet)];

    let plan = plan_airdrop_notification(&accounts, &wallet, &program, 7, true).unwrap();
    assert!(plan.user_exists);
    assert_eq!(plan.user_account_pda, user_pda);
    assert_eq!(plan.program_state_pda, derive_program_state_pda(&program).unwrap());
    assert_eq!(plan.current_week_data_pda, derive_weekly_data_pda(7, &program).unwrap());
    assert_eq!(plan.next_week_data_pda, derive_weekly_data_pda(8, &program).unwrap());
    assert_eq!(plan.wallet_index, 1);
    let mut expected = vec![250u8, 108, 76, 22, 238, 239, 87, 21];
    expected.extend_from_slice(&[1, 7, 8]);
    assert_eq!(plan.instruction_data, expected);

    // A wallet the ledger does not know gets the creating opcode, and a
    // batch that goes on gets a zero flag.
    let fresh = vec![account(wallet)];
    let plan2 = plan_airdrop_notification(&fresh, &wallet, &program, 7, false).unwrap();
    assert!(!plan2.user_exists);
    let mut expected2 = vec![68u8, 201, 129, 230, 125, 165, 234, 125];
    expected2.extend_from_slice(&[0, 7, 8]);
    assert_eq!(plan2.instruction_data, expected2);

    // A wallet missing from the supplied accounts aborts.
    let without_wallet = vec![account(user_pda)];
    assert_eq!(
        plan_airdrop_notification(&without_wallet, &wallet, &program, 7, true),
        Err(ErrorCode::MissingUplineAccount)
    );
}

#[test]
fn ledger_lifecycle_is_one_way() {
    let mut state = initialize(addr(1), addr(1), addr(2)).unwrap();
    assert!(state.airdrop_active);

    // Fresh: stays active, nothing recorded.
    assert!(refresh_airdrop_status(&mut state, 0, 100));
    assert!(state.airdrop_active);
    assert_eq!(state.airdrop_end_timestamp, 0);

    // Expired: flips inactive and records the clock.
    assert!(!refresh_airdrop_status(&mut state, 0, AIRDROP_LIFETIME_SECONDS));
    assert!(!state.airdrop_active);
    assert_eq!(state.airdrop_end_timestamp, AIRDROP_LIFETIME_SECONDS);

    // Never reactivates, even on an early clock.
    assert!(!refresh_airdrop_status(&mut state, 0, 1));
    assert!(!state.airdrop_active);
    assert_eq!(state.airdrop_end_timestamp, AIRDROP_LIFETIME_SECONDS);
}

#[test]
fn unknown_wallet_fails_only_while_active() {
    assert_eq!(
        ledger_report_outcome(true, true),
        Err(ErrorCode::UserNotRegisteredInAirdrop)
    );
    assert_eq!(ledger_report_outcome(true, false), Ok(()));
    assert_eq!(ledger_report_outcome(false, true), Ok(()));
    assert_eq!(ledger_report_outcome(false, false), Ok(()));
}
