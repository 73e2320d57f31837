//! Address allow-listing and account precondition checks.
//!
//! Every entry point compares the account keys the caller supplied against a
//! fixed allow-list before any funds move. The allow-list itself is plain
//! data handed in by the embedding program.

use vstd::prelude::*;

use crate::addr::Addr;
use crate::errors::ErrorCode;
use crate::VAULT_A_ACCOUNTS_COUNT;

verus! {

/// The fixed allow-list of external accounts this program will touch.
#[derive(Clone, Copy, PartialEq, Eq, Structural, Debug)]
pub struct AddressBook {
    /// The exchange pool.
    pub pool_address: Addr,
    /// The reward-token vault.
    pub a_vault: Addr,
    /// The pool's holding of reward-vault shares.
    pub a_vault_lp: Addr,
    /// The share mint of the reward-token vault.
    pub a_vault_lp_mint: Addr,
    /// The token account holding the reward-token vault's funds.
    pub a_token_vault: Addr,
    /// The pool's holding of native-vault shares.
    pub b_vault_lp: Addr,
    /// The native-currency vault.
    pub b_vault: Addr,
    /// The token account holding the native vault's funds.
    pub b_token_vault: Addr,
    /// The share mint of the native vault.
    pub b_vault_lp_mint: Addr,
    /// The reward token mint.
    pub token_mint: Addr,
    /// The wrapped-native-currency mint.
    pub wsol_mint: Addr,
    /// The price-feed oracle program.
    pub chainlink_program: Addr,
    /// The native/USD price feed.
    pub sol_usd_feed: Addr,
    /// The vault program behind the pool.
    pub meteora_vault_program: Addr,
    /// The exchange program.
    pub meteora_amm_program: Addr,
    /// The exchange's protocol fee account for the native side.
    pub protocol_token_b_fee: Addr,
}

/// The reward-vault keys extracted from the head of a trailing account list.
#[derive(Clone, Copy, PartialEq, Eq, Structural, Debug)]
pub struct VaultAKeys {
    /// The reward-token vault.
    pub a_vault: Addr,
    /// The pool's holding of reward-vault shares.
    pub a_vault_lp: Addr,
    /// The share mint of the reward-token vault.
    pub a_vault_lp_mint: Addr,
    /// The token account holding the reward-token vault's funds.
    pub a_token_vault: Addr,
}

/// What [`verify_address_strict`] returns.
pub open spec fn verify_address_strict_spec(
    provided: Addr,
    expected: Addr,
    error_code: ErrorCode,
) -> Result<(), ErrorCode> {
    if provided == expected {
        Ok(())
    } else {
        Err(error_code)
    }
}

/// Rejects any account key other than the expected one.
pub fn verify_address_strict(provided: &Addr, expected: &Addr, error_code: ErrorCode) -> (r:
    Result<(), ErrorCode>)
    ensures
        r == verify_address_strict_spec(*provided, *expected, error_code),
{
    if provided != expected {
        return Err(error_code);
    }
    Ok(())
}

/// What [`verify_chainlink_addresses`] returns.
pub open spec fn verify_chainlink_addresses_spec(
    book: AddressBook,
    chainlink_program: Addr,
    chainlink_feed: Addr,
) -> Result<(), ErrorCode> {
    if chainlink_program != book.chainlink_program {
        Err(ErrorCode::InvalidChainlinkProgram)
    } else if chainlink_feed != book.sol_usd_feed {
        Err(ErrorCode::InvalidPriceFeed)
    } else {
        Ok(())
    }
}

/// Rejects oracle accounts other than the allow-listed program and feed.
pub fn verify_chainlink_addresses(
    book: &AddressBook,
    chainlink_program: &Addr,
    chainlink_feed: &Addr,
) -> (r: Result<(), ErrorCode>)
    ensures
        r == verify_chainlink_addresses_spec(*book, *chainlink_program, *chainlink_feed),
{
    verify_address_strict(
        chainlink_program,
        &book.chainlink_program,
        ErrorCode::InvalidChainlinkProgram,
    )?;
    verify_address_strict(chainlink_feed, &book.sol_usd_feed, ErrorCode::InvalidPriceFeed)?;
    Ok(())
}

/// What [`verify_all_fixed_addresses`] returns.
pub open spec fn verify_all_fixed_addresses_spec(
    book: AddressBook,
    pool: Addr,
    b_vault: Addr,
    b_token_vault: Addr,
    b_vault_lp_mint: Addr,
    b_vault_lp: Addr,
    token_mint: Addr,
    wsol_mint: Addr,
) -> Result<(), ErrorCode> {
    if pool != book.pool_address {
        Err(ErrorCode::InvalidPoolAddress)
    } else if b_vault_lp != book.b_vault_lp {
        Err(ErrorCode::InvalidVaultAddress)
    } else if b_vault != book.b_vault {
        Err(ErrorCode::InvalidVaultAddress)
    } else if b_token_vault != book.b_token_vault {
        Err(ErrorCode::InvalidVaultAddress)
    } else if b_vault_lp_mint != book.b_vault_lp_mint {
        Err(ErrorCode::InvalidVaultAddress)
    } else if token_mint != book.token_mint {
        Err(ErrorCode::InvalidTokenMintAddress)
    } else if wsol_mint != book.wsol_mint {
        Err(ErrorCode::InvalidTokenMintAddress)
    } else {
        Ok(())
    }
}

/// Rejects any fixed pool, vault, or mint account that is not allow-listed.
pub fn verify_all_fixed_addresses(
    book: &AddressBook,
    pool: &Addr,
    b_vault: &Addr,
    b_token_vault: &Addr,
    b_vault_lp_mint: &Addr,
    b_vault_lp: &Addr,
    token_mint: &Addr,
    wsol_mint: &Addr,
) -> (r: Result<(), ErrorCode>)
    ensures
        r == verify_all_fixed_addresses_spec(
            *book,
            *pool,
            *b_vault,
            *b_token_vault,
            *b_vault_lp_mint,
            *b_vault_lp,
            *token_mint,
            *wsol_mint,
        ),
{
    verify_address_strict(pool, &book.pool_address, ErrorCode::InvalidPoolAddress)?;
    verify_address_strict(b_vault_lp, &book.b_vault_lp, ErrorCode::InvalidVaultAddress)?;
    verify_address_strict(b_vault, &book.b_vault, ErrorCode::InvalidVaultAddress)?;
    verify_address_strict(b_token_vault, &book.b_token_vault, ErrorCode::InvalidVaultAddress)?;
    verify_address_strict(b_vault_lp_mint, &book.b_vault_lp_mint, ErrorCode::InvalidVaultAddress)?;
    verify_address_strict(token_mint, &book.token_mint, ErrorCode::InvalidTokenMintAddress)?;
    verify_address_strict(wsol_mint, &book.wsol_mint, ErrorCode::InvalidTokenMintAddress)?;
    Ok(())
}

/// What [`verify_vault_a_addresses`] returns.
pub open spec fn verify_vault_a_addresses_spec(
    book: AddressBook,
    a_vault: Addr,
    a_vault_lp: Addr,
    a_vault_lp_mint: Addr,
    a_token_vault: Addr,
) -> Result<(), ErrorCode> {
    if a_vault != book.a_vault {
        Err(ErrorCode::InvalidVaultAddress)
    } else if a_vault_lp != book.a_vault_lp {
        Err(ErrorCode::InvalidVaultAddress)
    } else if a_vault_lp_mint != book.a_vault_lp_mint {
        Err(ErrorCode::InvalidVaultAddress)
    } else if a_token_vault != book.a_token_vault {
        Err(ErrorCode::InvalidVaultAddress)
    } else {
        Ok(())
    }
}

/// Rejects reward-vault accounts that are not the allow-listed ones.
pub fn verify_vault_a_addresses(
    book: &AddressBook,
    a_vault: &Addr,
    a_vault_lp: &Addr,
    a_vault_lp_mint: &Addr,
    a_token_vault: &Addr,
) -> (r: Result<(), ErrorCode>)
    ensures
        r == verify_vault_a_addresses_spec(
            *book,
            *a_vault,
            *a_vault_lp,
            *a_vault_lp_mint,
            *a_token_vault,
        ),
{
    verify_address_strict(a_vault, &book.a_vault, ErrorCode::InvalidVaultAddress)?;
    verify_address_strict(a_vault_lp, &book.a_vault_lp, ErrorCode::InvalidVaultAddress)?;
    verify_address_strict(a_vault_lp_mint, &book.a_vault_lp_mint, ErrorCode::InvalidVaultAddress)?;
    verify_address_strict(a_token_vault, &book.a_token_vault, ErrorCode::InvalidVaultAddress)?;
    Ok(())
}

/// What [`verify_wallet_is_system_account`] returns.
pub open spec fn verify_wallet_is_system_spec(wallet_is_system_owned: bool) -> Result<
    (),
    ErrorCode,
> {
    if wallet_is_system_owned {
        Ok(())
    } else {
        Err(ErrorCode::PaymentWalletInvalid)
    }
}

/// Rejects a payment destination unless it is a plain system-owned wallet;
/// the caller reads the wallet account's owner and passes the comparison in.
pub fn verify_wallet_is_system_account(wallet_is_system_owned: bool) -> (r: Result<(), ErrorCode>)
    ensures
        r == verify_wallet_is_system_spec(wallet_is_system_owned),
{
    if !wallet_is_system_owned {
        return Err(ErrorCode::PaymentWalletInvalid);
    }
    Ok(())
}

/// What [`validate_base_registration`] returns.
pub open spec fn validate_base_registration_spec(
    book: AddressBook,
    owner: Addr,
    multisig_treasury: Addr,
    pool: Addr,
    b_vault: Addr,
    b_token_vault: Addr,
    b_vault_lp_mint: Addr,
    b_vault_lp: Addr,
    token_mint: Addr,
    wsol_mint: Addr,
    vault_program: Addr,
    amm_program: Addr,
    protocol_token_fee: Addr,
) -> Result<(), ErrorCode> {
    if owner != multisig_treasury {
        Err(ErrorCode::NotAuthorized)
    } else {
        match verify_all_fixed_addresses_spec(
            book,
            pool,
            b_vault,
            b_token_vault,
            b_vault_lp_mint,
            b_vault_lp,
            token_mint,
            wsol_mint,
        ) {
            Err(e) => Err(e),
            Ok(_) => if vault_program != book.meteora_vault_program {
                Err(ErrorCode::InvalidVaultProgram)
            } else if amm_program != book.meteora_amm_program {
                Err(ErrorCode::InvalidAmmProgram)
            } else if protocol_token_fee != book.protocol_token_b_fee {
                Err(ErrorCode::InvalidProtocolFeeAccount)
            } else {
                Ok(())
            },
        }
    }
}

/// Authorizes a root registration: the caller must be the treasury and every
/// supplied account must be allow-listed.
pub fn validate_base_registration(
    book: &AddressBook,
    owner: &Addr,
    multisig_treasury: &Addr,
    pool: &Addr,
    b_vault: &Addr,
    b_token_vault: &Addr,
    b_vault_lp_mint: &Addr,
    b_vault_lp: &Addr,
    token_mint: &Addr,
    wsol_mint: &Addr,
    vault_program: &Addr,
    amm_program: &Addr,
    protocol_token_fee: &Addr,
) -> (r: Result<(), ErrorCode>)
    ensures
        r == validate_base_registration_spec(
            *book,
            *owner,
            *multisig_treasury,
            *pool,
            *b_vault,
            *b_token_vault,
            *b_vault_lp_mint,
            *b_vault_lp,
            *token_mint,
            *wsol_mint,
            *vault_program,
            *amm_program,
            *protocol_token_fee,
        ),
{
    if owner != multisig_treasury {
        return Err(ErrorCode::NotAuthorized);
    }
    verify_all_fixed_addresses(
        book,
        pool,
        b_vault,
        b_token_vault,
        b_vault_lp_mint,
        b_vault_lp,
        token_mint,
        wsol_mint,
    )?;
    verify_address_strict(
        vault_program,
        &book.meteora_vault_program,
        ErrorCode::InvalidVaultProgram,
    )?;
    verify_address_strict(amm_program, &book.meteora_amm_program, ErrorCode::InvalidAmmProgram)?;
    verify_address_strict(
        protocol_token_fee,
        &book.protocol_token_b_fee,
        ErrorCode::InvalidProtocolFeeAccount,
    )?;
    Ok(())
}

/// What [`extract_and_verify_vault_a_accounts`] returns.
pub open spec fn extract_vault_a_spec(book: AddressBook, remaining: Seq<Addr>) -> Result<
    VaultAKeys,
    ErrorCode,
> {
    if remaining.len() < VAULT_A_ACCOUNTS_COUNT {
        Err(ErrorCode::MissingVaultAAccounts)
    } else {
        let keys = VaultAKeys {
            a_vault: remaining[0],
            a_vault_lp: remaining[1],
            a_vault_lp_mint: remaining[2],
            a_token_vault: remaining[3],
        };
        match verify_vault_a_addresses_spec(
            book,
            keys.a_vault,
            keys.a_vault_lp,
            keys.a_vault_lp_mint,
            keys.a_token_vault,
        ) {
            Ok(_) => Ok(keys),
            Err(e) => Err(e),
        }
    }
}

/// Takes the four reward-vault keys from the head of the trailing account
/// list and rejects any that is not allow-listed.
pub fn extract_and_verify_vault_a_accounts(book: &AddressBook, remaining: &Vec<Addr>) -> (r: Result<
    VaultAKeys,
    ErrorCode,
>)
    ensures
        r == extract_vault_a_spec(*book, remaining@),
{
    if remaining.len() < VAULT_A_ACCOUNTS_COUNT {
        return Err(ErrorCode::MissingVaultAAccounts);
    }
    let keys = VaultAKeys {
        a_vault: remaining[0],
        a_vault_lp: remaining[1],
        a_vault_lp_mint: remaining[2],
        a_token_vault: remaining[3],
    };
    verify_vault_a_addresses(
        book,
        &keys.a_vault,
        &keys.a_vault_lp,
        &keys.a_vault_lp_mint,
        &keys.a_token_vault,
    )?;
    Ok(keys)
}

} // verus!
