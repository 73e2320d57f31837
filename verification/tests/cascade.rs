use matrix_system::addr::Addr;
use matrix_system::errors::ErrorCode;
use matrix_system::matrix::{initialize, initialize_base_user_data, FixedAccountKeys};
use matrix_system::model::{
    FinancialAction, ProgramState, ReferralChain, UplineEntry, UserAccount,
};
use matrix_system::oracle::OracleReading;
use matrix_system::settle::{
    check_duplicate_uplines, register_with_sol_deposit, validate_upline_list, AncestorRecord,
};
use matrix_system::validate::AddressBook;
use matrix_system::MAX_UPLINE_DEPTH;

fn addr(n: u64) -> Addr {
    Addr::new(n, 0, 0, 0)
}

fn book() -> AddressBook {
    AddressBook {
        pool_address: addr(1),
        a_vault: addr(2),
        a_vault_lp: addr(3),
        a_vault_lp_mint: addr(4),
        a_token_vault: addr(5),
        b_vault_lp: addr(6),
        b_vault: addr(7),
        b_token_vault: addr(8),
        b_vault_lp_mint: addr(9),
        token_mint: addr(10),
        wsol_mint: addr(11),
        chainlink_program: addr(12),
        sol_usd_feed: addr(13),
        meteora_vault_program: addr(14),
        meteora_amm_program: addr(15),
        protocol_token_b_fee: addr(16),
    }
}

fn fixed() -> FixedAccountKeys {
    FixedAccountKeys {
        pool: addr(1),
        b_vault: addr(7),
        b_token_vault: addr(8),
        b_vault_lp_mint: addr(9),
        b_vault_lp: addr(6),
        token_mint: addr(10),
        wsol_mint: addr(11),
        vault_program: addr(14),
        amm_program: addr(15),
        protocol_token_fee: addr(16),
    }
}

fn cheap_oracle() -> OracleReading {
    OracleReading {
        price: 1_000_000_000_000_000_000,
        decimals: 8,
        current_timestamp: 1_000,
        feed_timestamp: 1_000,
    }
}

fn ancestor_pda(k: u64) -> Addr {
    addr(1_000 + 10 * k)
}

fn ancestor_wallet(k: u64) -> Addr {
    addr(1_001 + 10 * k)
}

/// An ancestor whose matrix already holds `filled` members and whose escrow
/// holds `reserved`.
fn ancestor(k: u64, filled: u8, reserved: u64) -> AncestorRecord {
    let mut account = initialize_base_user_data(&ancestor_wallet(k), 1, 1);
    let mut slots = vec![None, None, None];
    for s in 0..filled as usize {
        slots[s] = Some(addr(77));
    }
    account.chain = ReferralChain { id: 60 + k as u32, slots, filled_slots: filled };
    account.reserved_sol = reserved;
    AncestorRecord {
        pda: ancestor_pda(k),
        wallet: ancestor_wallet(k),
        account,
        wallet_is_system_owned: true,
        pda_is_program_owned: true,
    }
}

struct Fixture {
    state: ProgramState,
    referrer: UserAccount,
    referrer_pda: Addr,
    referrer_wallet: Addr,
    remaining: Vec<Addr>,
    ancestors: Vec<AncestorRecord>,
}

/// A non-root referrer on its third slot, with `n` stored ancestors whose
/// matrices hold `filled` members each, and the matching supplied list.
fn cascade_fixture(n: u64, filled: u8, reserved: u64) -> Fixture {
    let state = initialize(addr(100), addr(100), addr(100)).unwrap();
    let referrer_wallet = addr(200);
    let mut referrer = initialize_base_user_data(&referrer_wallet, 1, 1);
    referrer.referrer = Some(ancestor_pda(1));
    let mut ancestors: Vec<AncestorRecord> = Vec::new();
    let mut remaining = vec![addr(2), addr(3), addr(4), addr(5), addr(13), addr(12)];
    for k in 1..=n {
        let a = ancestor(k, filled, reserved);
        referrer.upline.upline.push(UplineEntry { pda: a.pda, wallet: a.wallet });
        remaining.push(a.pda);
        remaining.push(a.wallet);
        ancestors.push(a);
    }
    referrer.upline.depth = n as u8 + 1;
    // The referrer sits on its third slot with an outstanding reservation.
    referrer.chain = ReferralChain {
        id: 40,
        slots: vec![Some(addr(71)), Some(addr(72)), None],
        filled_slots: 2,
    };
    referrer.reserved_sol = 9;
    Fixture {
        state,
        referrer,
        referrer_pda: addr(201),
        referrer_wallet,
        remaining,
        ancestors,
    }
}

fn run(f: &mut Fixture, deposit: u64) -> Result<matrix_system::settle::RegistrationOutcome, ErrorCode> {
    register_with_sol_deposit(
        &mut f.state,
        &book(),
        &fixed(),
        &f.remaining.clone(),
        &cheap_oracle(),
        &mut f.referrer,
        f.referrer_pda,
        f.referrer_wallet,
        true,
        addr(500),
        addr(501),
        deposit,
        &mut f.ancestors,
    )
}

// The deposit propagates to the first ancestor, whose open first slot burns
// it.
#[test]
fn walk_burns_on_first_ancestor_with_open_first_slot() {
    let mut f = cascade_fixture(2, 0, 0);
    let out = run(&mut f, 5).unwrap();
    assert!(out.chain_completed);
    assert_eq!(out.visited_ancestors, 1);
    assert_eq!(
        out.actions,
        vec![
            FinancialAction::Pay { wallet: f.referrer_wallet, amount: 9 },
            FinancialAction::Notify { wallet: f.referrer_wallet, is_last: true },
            FinancialAction::Burn { amount: 5 },
        ]
    );
    // The visited ancestor took the completed referrer into its first slot.
    assert_eq!(f.ancestors[0].account.chain.filled_slots, 1);
    assert_eq!(f.ancestors[0].account.chain.slots[0], Some(f.referrer_pda));
    // The second ancestor was never touched.
    assert_eq!(f.ancestors[1].account.chain.filled_slots, 0);
    // The referrer's matrix reset in place.
    assert_eq!(f.referrer.chain.filled_slots, 0);
    assert_eq!(f.referrer.reserved_sol, 0);
    // Two slot events: the referrer's and the ancestor's.
    assert_eq!(out.events.len(), 2);
    assert_eq!(out.events[0].owner, f.referrer_pda);
    assert_eq!(out.events[1].owner, f.ancestors[0].pda);
    assert_eq!(out.events[1].user, f.referrer_pda);
}

// The deposit propagates to the first ancestor, whose open second slot
// escrows it.
#[test]
fn walk_reserves_on_first_ancestor_with_open_second_slot() {
    let mut f = cascade_fixture(1, 1, 0);
    let out = run(&mut f, 5).unwrap();
    assert_eq!(out.visited_ancestors, 1);
    assert_eq!(
        out.actions,
        vec![
            FinancialAction::Pay { wallet: f.referrer_wallet, amount: 9 },
            FinancialAction::Notify { wallet: f.referrer_wallet, is_last: true },
            FinancialAction::Reserve { beneficiary: f.ancestors[0].pda, amount: 5 },
        ]
    );
    assert_eq!(f.ancestors[0].account.reserved_sol, 5);
    assert_eq!(f.ancestors[0].account.chain.filled_slots, 2);
}

// Exhaustion fallback: a full-length chain cascading on its third slots
// consumes nothing, and the engine burns the deposit rather than leaving it
// unallocated.
#[test]
fn exhausted_cascade_falls_back_to_burn() {
    let n = MAX_UPLINE_DEPTH as u64;
    let mut f = cascade_fixture(n, 2, 3);
    let out = run(&mut f, 5).unwrap();
    assert_eq!(out.visited_ancestors, MAX_UPLINE_DEPTH);
    // Referrer payout and notification first; then per ancestor a payout of
    // its reservation and its notification; the final action is the
    // fallback burn of the whole deposit.
    let mut expected = vec![
        FinancialAction::Pay { wallet: f.referrer_wallet, amount: 9 },
        FinancialAction::Notify { wallet: f.referrer_wallet, is_last: false },
    ];
    for k in 1..=n {
        expected.push(FinancialAction::Pay { wallet: ancestor_wallet(k), amount: 3 });
        expected.push(FinancialAction::Notify {
            wallet: ancestor_wallet(k),
            is_last: k == n,
        });
    }
    expected.push(FinancialAction::Burn { amount: 5 });
    assert_eq!(out.actions, expected);
    // Every visited matrix reset and cleared its escrow.
    for k in 0..MAX_UPLINE_DEPTH {
        assert_eq!(f.ancestors[k].account.chain.filled_slots, 0);
        assert_eq!(f.ancestors[k].account.reserved_sol, 0);
    }
}

// Ancestor validation round-trip: the stored list in the stored order
// passes; a reordering or substitution is rejected.
#[test]
fn upline_validation_round_trip() {
    let f = cascade_fixture(3, 2, 0);
    assert_eq!(
        validate_upline_list(&f.referrer.upline.upline, &f.ancestors),
        Ok(())
    );

    let mut swapped = f.ancestors.clone();
    swapped.swap(0, 1);
    assert_eq!(
        validate_upline_list(&f.referrer.upline.upline, &swapped),
        Err(ErrorCode::InvalidUplineOrder)
    );

    let mut wrong_wallet = f.ancestors.clone();
    wrong_wallet[1].wallet = addr(9_999);
    assert_eq!(
        validate_upline_list(&f.referrer.upline.upline, &wrong_wallet),
        Err(ErrorCode::InvalidUplineWallet)
    );

    let mut truncated = f.ancestors.clone();
    truncated.pop();
    assert_eq!(
        validate_upline_list(&f.referrer.upline.upline, &truncated),
        Err(ErrorCode::InvalidUplineOrder)
    );
}

// A reordered supplied list is rejected by the whole registration.
#[test]
fn reordered_ancestors_abort_registration() {
    let mut f = cascade_fixture(3, 2, 0);
    f.ancestors.swap(0, 1);
    let p0 = f.remaining[6];
    let w0 = f.remaining[7];
    f.remaining[6] = f.remaining[8];
    f.remaining[7] = f.remaining[9];
    f.remaining[8] = p0;
    f.remaining[9] = w0;
    assert_eq!(run(&mut f, 5), Err(ErrorCode::InvalidUplineOrder));
}

// Duplicate ancestor rejection: the same account twice aborts the call.
#[test]
fn duplicate_ancestor_aborts_registration() {
    let mut f = cascade_fixture(2, 2, 0);
    // Store and supply the same ancestor twice.
    let dup = f.ancestors[0].clone();
    f.referrer.upline.upline[1] = matrix_system::model::UplineEntry {
        pda: dup.pda,
        wallet: dup.wallet,
    };
    f.ancestors[1] = dup;
    f.remaining[8] = f.remaining[6];
    f.remaining[9] = f.remaining[7];
    assert_eq!(run(&mut f, 5), Err(ErrorCode::DuplicateUplineExploit));
    // And the standalone check agrees.
    assert_eq!(
        check_duplicate_uplines(&f.ancestors),
        Err(ErrorCode::DuplicateUplineExploit)
    );
}

#[test]
fn missing_ancestors_on_third_slot_are_rejected() {
    let mut f = cascade_fixture(1, 2, 0);
    f.remaining.truncate(6);
    f.ancestors.clear();
    assert_eq!(run(&mut f, 5), Err(ErrorCode::UplineRequiredForNonBase));
}

#[test]
fn odd_ancestor_account_list_is_rejected() {
    let mut f = cascade_fixture(1, 2, 0);
    f.remaining.push(addr(4_242));
    assert_eq!(run(&mut f, 5), Err(ErrorCode::MissingUplineAccount));
}

#[test]
fn unregistered_ancestor_aborts_the_walk() {
    let mut f = cascade_fixture(1, 2, 0);
    f.ancestors[0].account.is_registered = false;
    let state_before = f.state.clone();
    let referrer_before = f.referrer.clone();
    assert_eq!(run(&mut f, 5), Err(ErrorCode::SlotNotRegistered));
    // The abort left everything untouched.
    assert_eq!(f.state, state_before);
    assert_eq!(f.referrer, referrer_before);
    assert_eq!(f.ancestors[0].account.chain.filled_slots, 2);
}

#[test]
fn program_foreign_ancestor_account_is_rejected() {
    let mut f = cascade_fixture(1, 2, 0);
    f.ancestors[0].pda_is_program_owned = false;
    assert_eq!(run(&mut f, 5), Err(ErrorCode::InvalidSlotOwner));
}

#[test]
fn non_system_ancestor_wallet_is_rejected() {
    let mut f = cascade_fixture(1, 2, 0);
    f.ancestors[0].wallet_is_system_owned = false;
    assert_eq!(run(&mut f, 5), Err(ErrorCode::PaymentWalletInvalid));
}

// A cascading completion that ends on an ancestor whose slot terminates the
// deposit stops the walk there.
#[test]
fn cascade_stops_at_first_terminal_ancestor() {
    let mut f = cascade_fixture(3, 2, 7);
    // The third ancestor is on its first slot: the deposit burns there.
    f.ancestors[2] = AncestorRecord {
        account: initialize_base_user_data(&ancestor_wallet(3), 1, 1),
        ..f.ancestors[2].clone()
    };
    let out = run(&mut f, 5).unwrap();
    assert_eq!(out.visited_ancestors, 3);
    let mut expected = vec![
        FinancialAction::Pay { wallet: f.referrer_wallet, amount: 9 },
        FinancialAction::Notify { wallet: f.referrer_wallet, is_last: false },
    ];
    for k in 1..=2 {
        expected.push(FinancialAction::Pay { wallet: ancestor_wallet(k), amount: 7 });
        expected.push(FinancialAction::Notify { wallet: ancestor_wallet(k), is_last: k == 2 });
    }
    expected.push(FinancialAction::Burn { amount: 5 });
    assert_eq!(out.actions, expected);
    assert_eq!(f.ancestors[2].account.chain.filled_slots, 1);
    // The second completed ancestor is who the third one received.
    assert_eq!(f.ancestors[2].account.chain.slots[0], Some(f.ancestors[1].pda));
}
