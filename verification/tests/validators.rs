use matrix_system::addr::Addr;
use matrix_system::errors::ErrorCode;
use matrix_system::validate::{
    extract_and_verify_vault_a_accounts, validate_base_registration, verify_address_strict,
    verify_wallet_is_system_account, AddressBook, VaultAKeys,
};

fn addr(n: u64) -> Addr {
    Addr::new(n, 0, 0, 0)
}

fn book() -> AddressBook {
    AddressBook {
        pool_address: addr(1),
        a_vault: addr(2),
        a_vault_lp: addr(3),
        a_vault_lp_mint: addr(4),
        a_token_vault: addr(5),
        b_vault_lp: addr(6),
        b_vault: addr(7),
        b_token_vault: addr(8),
        b_vault_lp_mint: addr(9),
        token_mint: addr(10),
        wsol_mint: addr(11),
        chainlink_program: addr(12),
        sol_usd_feed: addr(13),
        meteora_vault_program: addr(14),
        meteora_amm_program: addr(15),
        protocol_token_b_fee: addr(16),
    }
}

fn base_args() -> [Addr; 12] {
    // owner, treasury, pool, b_vault, b_token_vault, b_vault_lp_mint,
    // b_vault_lp, token_mint, wsol_mint, vault_program, amm_program, fee.
    [
        addr(100),
        addr(100),
        addr(1),
        addr(7),
        addr(8),
        addr(9),
        addr(6),
        addr(10),
        addr(11),
        addr(14),
        addr(15),
        addr(16),
    ]
}

fn run_base(args: &[Addr; 12]) -> Result<(), ErrorCode> {
    validate_base_registration(
        &book(),
        &args[0],
        &args[1],
        &args[2],
        &args[3],
        &args[4],
        &args[5],
        &args[6],
        &args[7],
        &args[8],
        &args[9],
        &args[10],
        &args[11],
    )
}

#[test]
fn address_check_is_exact() {
    assert_eq!(
        verify_address_strict(&addr(1), &addr(1), ErrorCode::InvalidPoolAddress),
        Ok(())
    );
    assert_eq!(
        verify_address_strict(&addr(1), &addr(2), ErrorCode::InvalidPoolAddress),
        Err(ErrorCode::InvalidPoolAddress)
    );
}

#[test]
fn base_registration_accepts_the_allow_list() {
    assert_eq!(run_base(&base_args()), Ok(()));
}

#[test]
fn base_registration_rejects_each_stranger() {
    let mut a = base_args();
    a[0] = addr(999);
    assert_eq!(run_base(&a), Err(ErrorCode::NotAuthorized));

    let mut a = base_args();
    a[7] = addr(999);
    assert_eq!(run_base(&a), Err(ErrorCode::InvalidTokenMintAddress));

    let mut a = base_args();
    a[9] = addr(999);
    assert_eq!(run_base(&a), Err(ErrorCode::InvalidVaultProgram));

    let mut a = base_args();
    a[10] = addr(999);
    assert_eq!(run_base(&a), Err(ErrorCode::InvalidAmmProgram));

    let mut a = base_args();
    a[11] = addr(999);
    assert_eq!(run_base(&a), Err(ErrorCode::InvalidProtocolFeeAccount));
}

#[test]
fn reward_vault_extraction_checks_count_and_keys() {
    let good = vec![addr(2), addr(3), addr(4), addr(5), addr(42)];
    assert_eq!(
        extract_and_verify_vault_a_accounts(&book(), &good),
        Ok(VaultAKeys {
            a_vault: addr(2),
            a_vault_lp: addr(3),
            a_vault_lp_mint: addr(4),
            a_token_vault: addr(5),
        })
    );
    assert_eq!(
        extract_and_verify_vault_a_accounts(&book(), &vec![addr(2)]),
        Err(ErrorCode::MissingVaultAAccounts)
    );
    let swapped = vec![addr(3), addr(2), addr(4), addr(5)];
    assert_eq!(
        extract_and_verify_vault_a_accounts(&book(), &swapped),
        Err(ErrorCode::InvalidVaultAddress)
    );
}

#[test]
fn payment_wallet_must_be_system_owned() {
    assert_eq!(verify_wallet_is_system_account(true), Ok(()));
    assert_eq!(
        verify_wallet_is_system_account(false),
        Err(ErrorCode::PaymentWalletInvalid)
    );
}
