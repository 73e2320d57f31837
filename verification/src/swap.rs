//! The swap-and-burn collaborator's verified half: decoding pool reserve
//! data from raw account bytes, quoting the expected exchange output with a
//! slippage floor, framing the exchange instruction payload, and measuring
//! the exact amount to destroy from a before/after balance pair.
//!
//! The exchange call itself is a cross-program invocation made by the
//! embedding program; everything here is plain computation on bytes and
//! integers.

use vstd::prelude::*;

use crate::errors::ErrorCode;

verus! {

/// Fixed-point scale used when forming the pool price ratio.
pub const PRECISION_FACTOR: i128 = 1_000_000_000;

/// Byte offset of the pool's enabled flag in its account data.
pub const POOL_ENABLED_OFFSET: usize = 233;

/// The little-endian 64-bit integer held at `off` in `data`.
pub open spec fn le_u64_at(data: Seq<u8>, off: int) -> int {
    data[off] as int + data[off + 1] as int * 0x100 + data[off + 2] as int * 0x10000 + data[off
        + 3] as int * 0x1000000 + data[off + 4] as int * 0x100000000 + data[off + 5] as int
        * 0x10000000000 + data[off + 6] as int * 0x1000000000000 + data[off + 7] as int
        * 0x100000000000000
}

/// Reads the little-endian 64-bit integer held at `offset`.
pub fn read_le_u64(data: &Vec<u8>, offset: usize) -> (r: u64)
    requires
        offset + 8 <= data@.len(),
    ensures
        r as int == le_u64_at(data@, offset as int),
{
    let n = data.len();
    assert(offset + 8 <= n);
    let b0 = data[offset] as u64;
    let b1 = data[offset + 1] as u64;
    let b2 = data[offset + 2] as u64;
    let b3 = data[offset + 3] as u64;
    let b4 = data[offset + 4] as u64;
    let b5 = data[offset + 5] as u64;
    let b6 = data[offset + 6] as u64;
    let b7 = data[offset + 7] as u64;
    b0 + b1 * 0x100 + b2 * 0x10000 + b3 * 0x1000000 + b4 * 0x100000000 + b5 * 0x10000000000 + b6
        * 0x1000000000000 + b7 * 0x100000000000000
}

/// Everything the quote needs from the pool's raw accounts.
#[derive(Clone, Copy, PartialEq, Eq, Structural, Debug)]
pub struct ReserveSnapshot {
    /// Whether the pool accepts trades.
    pub pool_enabled: bool,
    /// Total reward-token amount held by the reward vault.
    pub vault_a_total: u64,
    /// Total native amount held by the native vault.
    pub vault_b_total: u64,
    /// Reward-vault shares owned by the pool.
    pub a_vault_lp_amount: u64,
    /// Native-vault shares owned by the pool.
    pub b_vault_lp_amount: u64,
    /// Total reward-vault shares outstanding.
    pub a_vault_lp_supply: u64,
    /// Total native-vault shares outstanding.
    pub b_vault_lp_supply: u64,
}

/// What [`decode_pool_enabled`] returns: the flag byte at its fixed offset.
pub open spec fn decode_pool_enabled_spec(pool_data: Seq<u8>) -> Result<bool, ErrorCode> {
    if pool_data.len() <= POOL_ENABLED_OFFSET {
        Err(ErrorCode::PriceMeteoraReadFailed)
    } else {
        Ok(pool_data[POOL_ENABLED_OFFSET as int] != 0)
    }
}

/// Reads the pool's enabled flag from its raw account bytes.
pub fn decode_pool_enabled(pool_data: &Vec<u8>) -> (r: Result<bool, ErrorCode>)
    ensures
        r == decode_pool_enabled_spec(pool_data@),
{
    if pool_data.len() <= POOL_ENABLED_OFFSET {
        return Err(ErrorCode::PriceMeteoraReadFailed);
    }
    Ok(pool_data[POOL_ENABLED_OFFSET] != 0)
}

/// What [`decode_vault_total`] returns: the total held by a vault, stored
/// little-endian at offset 11 of the vault account.
pub open spec fn decode_vault_total_spec(vault_data: Seq<u8>) -> Result<u64, ErrorCode> {
    if vault_data.len() < 19 {
        Err(ErrorCode::PriceMeteoraReadFailed)
    } else {
        Ok(le_u64_at(vault_data, 11) as u64)
    }
}

/// Reads a vault's total amount from its raw account bytes.
pub fn decode_vault_total(vault_data: &Vec<u8>) -> (r: Result<u64, ErrorCode>)
    ensures
        r == decode_vault_total_spec(vault_data@),
{
    if vault_data.len() < 19 {
        return Err(ErrorCode::PriceMeteoraReadFailed);
    }
    Ok(read_le_u64(vault_data, 11))
}

/// What [`decode_token_account_amount`] returns: the balance stored
/// little-endian at offset 64 of a token account.
pub open spec fn decode_token_account_amount_spec(data: Seq<u8>, error_code: ErrorCode) -> Result<
    u64,
    ErrorCode,
> {
    if data.len() < 72 {
        Err(error_code)
    } else {
        Ok(le_u64_at(data, 64) as u64)
    }
}

/// Reads a token account's balance from its raw bytes, failing with the
/// caller's error code when the account is too short.
pub fn decode_token_account_amount(data: &Vec<u8>, error_code: ErrorCode) -> (r: Result<
    u64,
    ErrorCode,
>)
    ensures
        r == decode_token_account_amount_spec(data@, error_code),
{
    if data.len() < 72 {
        return Err(error_code);
    }
    Ok(read_le_u64(data, 64))
}

/// What [`decode_mint_supply`] returns: the supply stored little-endian at
/// offset 36 of a mint account.
pub open spec fn decode_mint_supply_spec(mint_data: Seq<u8>) -> Result<u64, ErrorCode> {
    if mint_data.len() < 44 {
        Err(ErrorCode::PriceMeteoraReadFailed)
    } else {
        Ok(le_u64_at(mint_data, 36) as u64)
    }
}

/// Reads a mint's total supply from its raw account bytes.
pub fn decode_mint_supply(mint_data: &Vec<u8>) -> (r: Result<u64, ErrorCode>)
    ensures
        r == decode_mint_supply_spec(mint_data@),
{
    if mint_data.len() < 44 {
        return Err(ErrorCode::PriceMeteoraReadFailed);
    }
    Ok(read_le_u64(mint_data, 36))
}

/// What [`decode_reserves`] returns: each field decoded from its account,
/// failing on the first account that is malformed or a disabled pool.
pub open spec fn decode_reserves_spec(
    pool_data: Seq<u8>,
    a_vault_data: Seq<u8>,
    b_vault_data: Seq<u8>,
    a_vault_lp_data: Seq<u8>,
    b_vault_lp_data: Seq<u8>,
    a_vault_lp_mint_data: Seq<u8>,
    b_vault_lp_mint_data: Seq<u8>,
) -> Result<ReserveSnapshot, ErrorCode> {
    match decode_pool_enabled_spec(pool_data) {
        Err(e) => Err(e),
        Ok(false) => Err(ErrorCode::PriceMeteoraReadFailed),
        Ok(true) => match (
            decode_vault_total_spec(a_vault_data),
            decode_vault_total_spec(b_vault_data),
            decode_token_account_amount_spec(a_vault_lp_data, ErrorCode::PriceMeteoraReadFailed),
            decode_token_account_amount_spec(b_vault_lp_data, ErrorCode::PriceMeteoraReadFailed),
            decode_mint_supply_spec(a_vault_lp_mint_data),
            decode_mint_supply_spec(b_vault_lp_mint_data),
        ) {
            (Ok(va), Ok(vb), Ok(la), Ok(lb), Ok(sa), Ok(sb)) => Ok(
                ReserveSnapshot {
                    pool_enabled: true,
                    vault_a_total: va,
                    vault_b_total: vb,
                    a_vault_lp_amount: la,
                    b_vault_lp_amount: lb,
                    a_vault_lp_supply: sa,
                    b_vault_lp_supply: sb,
                },
            ),
            (Err(e), _, _, _, _, _) => Err(e),
            (_, Err(e), _, _, _, _) => Err(e),
            (_, _, Err(e), _, _, _) => Err(e),
            (_, _, _, Err(e), _, _) => Err(e),
            (_, _, _, _, Err(e), _) => Err(e),
            (_, _, _, _, _, Err(e)) => Err(e),
        },
    }
}

/// Decodes the reserve snapshot from the pool's raw accounts.
pub fn decode_reserves(
    pool_data: &Vec<u8>,
    a_vault_data: &Vec<u8>,
    b_vault_data: &Vec<u8>,
    a_vault_lp_data: &Vec<u8>,
    b_vault_lp_data: &Vec<u8>,
    a_vault_lp_mint_data: &Vec<u8>,
    b_vault_lp_mint_data: &Vec<u8>,
) -> (r: Result<ReserveSnapshot, ErrorCode>)
    ensures
        r == decode_reserves_spec(
            pool_data@,
            a_vault_data@,
            b_vault_data@,
            a_vault_lp_data@,
            b_vault_lp_data@,
            a_vault_lp_mint_data@,
            b_vault_lp_mint_data@,
        ),
{
    let enabled = decode_pool_enabled(pool_data)?;
    if !enabled {
        return Err(ErrorCode::PriceMeteoraReadFailed);
    }
    let vault_a_total = decode_vault_total(a_vault_data)?;
    let vault_b_total = decode_vault_total(b_vault_data)?;
    let a_vault_lp_amount = decode_token_account_amount(
        a_vault_lp_data,
        ErrorCode::PriceMeteoraReadFailed,
    )?;
    let b_vault_lp_amount = decode_token_account_amount(
        b_vault_lp_data,
        ErrorCode::PriceMeteoraReadFailed,
    )?;
    let a_vault_lp_supply = decode_mint_supply(a_vault_lp_mint_data)?;
    let b_vault_lp_supply = decode_mint_supply(b_vault_lp_mint_data)?;
    Ok(
        ReserveSnapshot {
            pool_enabled: true,
            vault_a_total,
            vault_b_total,
            a_vault_lp_amount,
            b_vault_lp_amount,
            a_vault_lp_supply,
            b_vault_lp_supply,
        },
    )
}

/// A vault side's underlying token amount: shares held times vault total
/// over shares outstanding, zero when no shares are outstanding; more than
/// 64 bits is an overflow error.
pub open spec fn underlying_amount_spec(lp_amount: u64, vault_total: u64, lp_supply: u64) -> Result<
    u64,
    ErrorCode,
> {
    if lp_supply == 0 {
        Ok(0u64)
    } else {
        let q = lp_amount as int * vault_total as int / lp_supply as int;
        if q > u64::MAX {
            Err(ErrorCode::MeteoraCalculationOverflow)
        } else {
            Ok(q as u64)
        }
    }
}

/// Computes one vault side's underlying token amount.
fn underlying_amount(lp_amount: u64, vault_total: u64, lp_supply: u64) -> (r: Result<
    u64,
    ErrorCode,
>)
    ensures
        r == underlying_amount_spec(lp_amount, vault_total, lp_supply),
{
    if lp_supply == 0 {
        return Ok(0);
    }
    assert(lp_amount as int * vault_total as int <= u128::MAX) by (nonlinear_arith)
        requires
            lp_amount <= u64::MAX,
            vault_total <= u64::MAX,
    ;
    let numerator = (lp_amount as u128) * (vault_total as u128);
    let q = numerator / (lp_supply as u128);
    proof {
        vstd::arithmetic::div_mod::lemma_div_is_ordered(
            q as int * 1,
            numerator as int,
            lp_supply as int,
        );
        assert(q == lp_amount as int * vault_total as int / lp_supply as int);
    }
    if q > u64::MAX as u128 {
        return Err(ErrorCode::MeteoraCalculationOverflow);
    }
    Ok(q as u64)
}

/// What [`quote_swap_output`] returns: the deposit priced at the pool's
/// reward-per-native ratio, then floored at one hundredth of the estimate
/// and at one unit — the wide slippage tolerance around the exchange call.
pub open spec fn quote_swap_output_spec(s: ReserveSnapshot, amount_in: u64) -> Result<
    u64,
    ErrorCode,
> {
    match (
        underlying_amount_spec(s.a_vault_lp_amount, s.vault_a_total, s.a_vault_lp_supply),
        underlying_amount_spec(s.b_vault_lp_amount, s.vault_b_total, s.b_vault_lp_supply),
    ) {
        (Err(e), _) => Err(e),
        (_, Err(e)) => Err(e),
        (Ok(token_a), Ok(token_b)) => {
            if token_a == 0 || token_b == 0 {
                Err(ErrorCode::PriceMeteoraReadFailed)
            } else {
                let ratio = token_a as int * PRECISION_FACTOR as int / token_b as int;
                if amount_in as int * ratio > i128::MAX {
                    Err(ErrorCode::MeteoraCalculationOverflow)
                } else {
                    let donut_tokens = amount_in as int * ratio / PRECISION_FACTOR as int;
                    if donut_tokens > u64::MAX {
                        Err(ErrorCode::MeteoraCalculationOverflow)
                    } else {
                        let minimum_out = donut_tokens / 100;
                        Ok(
                            if minimum_out == 0 {
                                1u64
                            } else {
                                minimum_out as u64
                            },
                        )
                    }
                }
            }
        },
    }
}

/// Quotes the minimum acceptable exchange output for a deposit.
pub fn quote_swap_output(s: &ReserveSnapshot, amount_in: u64) -> (r: Result<u64, ErrorCode>)
    ensures
        r == quote_swap_output_spec(*s, amount_in),
{
    let token_a = underlying_amount(s.a_vault_lp_amount, s.vault_a_total, s.a_vault_lp_supply)?;
    let token_b = underlying_amount(s.b_vault_lp_amount, s.vault_b_total, s.b_vault_lp_supply)?;
    if token_a == 0 || token_b == 0 {
        return Err(ErrorCode::PriceMeteoraReadFailed);
    }
    assert(token_a as int * PRECISION_FACTOR <= i128::MAX) by (nonlinear_arith)
        requires
            token_a <= u64::MAX,
    ;
    let scaled: i128 = (token_a as i128) * PRECISION_FACTOR;
    let ratio: i128 = scaled / (token_b as i128);
    let donut_scaled: Option<i128> = (amount_in as i128).checked_mul(ratio);
    match donut_scaled {
        None => Err(ErrorCode::MeteoraCalculationOverflow),
        Some(d) => {
            let donut_tokens: i128 = d / PRECISION_FACTOR;
            if donut_tokens > u64::MAX as i128 {
                return Err(ErrorCode::MeteoraCalculationOverflow);
            }
            let result: u64 = donut_tokens as u64;
            let minimum_out: u64 = result / 100;
            Ok(
                if minimum_out == 0 {
                    1
                } else {
                    minimum_out
                },
            )
        },
    }
}

/// What [`calculate_swap_amount_out`] returns: the quote over the decoded
/// reserves.
pub open spec fn calculate_swap_amount_out_spec(
    pool_data: Seq<u8>,
    a_vault_data: Seq<u8>,
    b_vault_data: Seq<u8>,
    a_vault_lp_data: Seq<u8>,
    b_vault_lp_data: Seq<u8>,
    a_vault_lp_mint_data: Seq<u8>,
    b_vault_lp_mint_data: Seq<u8>,
    amount_in: u64,
) -> Result<u64, ErrorCode> {
    match decode_reserves_spec(
        pool_data,
        a_vault_data,
        b_vault_data,
        a_vault_lp_data,
        b_vault_lp_data,
        a_vault_lp_mint_data,
        b_vault_lp_mint_data,
    ) {
        Err(e) => Err(e),
        Ok(s) => quote_swap_output_spec(s, amount_in),
    }
}

/// Computes the minimum acceptable exchange output for a deposit from the
/// pool's raw account bytes.
pub fn calculate_swap_amount_out(
    pool_data: &Vec<u8>,
    a_vault_data: &Vec<u8>,
    b_vault_data: &Vec<u8>,
    a_vault_lp_data: &Vec<u8>,
    b_vault_lp_data: &Vec<u8>,
    a_vault_lp_mint_data: &Vec<u8>,
    b_vault_lp_mint_data: &Vec<u8>,
    amount_in: u64,
) -> (r: Result<u64, ErrorCode>)
    ensures
        r == calculate_swap_amount_out_spec(
            pool_data@,
            a_vault_data@,
            b_vault_data@,
            a_vault_lp_data@,
            b_vault_lp_data@,
            a_vault_lp_mint_data@,
            b_vault_lp_mint_data@,
            amount_in,
        ),
{
    let snapshot = decode_reserves(
        pool_data,
        a_vault_data,
        b_vault_data,
        a_vault_lp_data,
        b_vault_lp_data,
        a_vault_lp_mint_data,
        b_vault_lp_mint_data,
    )?;
    quote_swap_output(&snapshot, amount_in)
}

/// The little-endian bytes of a 64-bit integer.
pub open spec fn u64_le_bytes(v: u64) -> Seq<u8> {
    seq![
        (v as int % 0x100) as u8,
        (v as int / 0x100 % 0x100) as u8,
        (v as int / 0x10000 % 0x100) as u8,
        (v as int / 0x1000000 % 0x100) as u8,
        (v as int / 0x100000000 % 0x100) as u8,
        (v as int / 0x10000000000 % 0x100) as u8,
        (v as int / 0x1000000000000 % 0x100) as u8,
        (v as int / 0x100000000000000 % 0x100) as u8,
    ]
}

/// The eight-byte opcode tag of the exchange instruction.
pub open spec fn swap_ix_discriminator() -> Seq<u8> {
    seq![248u8, 198u8, 158u8, 145u8, 225u8, 117u8, 135u8, 200u8]
}

/// Appends the little-endian bytes of `v`.
pub(crate) fn push_le_u64(data: &mut Vec<u8>, v: u64)
    ensures
        final(data)@ == old(data)@ + u64_le_bytes(v),
{
    data.push((v % 0x100) as u8);
    data.push((v / 0x100 % 0x100) as u8);
    data.push((v / 0x10000 % 0x100) as u8);
    data.push((v / 0x1000000 % 0x100) as u8);
    data.push((v / 0x100000000 % 0x100) as u8);
    data.push((v / 0x10000000000 % 0x100) as u8);
    data.push((v / 0x1000000000000 % 0x100) as u8);
    data.push((v / 0x100000000000000 % 0x100) as u8);
    proof {
        assert(data@ =~= old(data)@ + u64_le_bytes(v));
    }
}

/// Frames the exchange instruction payload: the opcode tag, then the input
/// amount and the minimum accepted output, both little-endian.
pub fn swap_instruction_data(amount_in: u64, minimum_amount_out: u64) -> (r: Vec<u8>)
    ensures
        r@ == swap_ix_discriminator() + u64_le_bytes(amount_in) + u64_le_bytes(minimum_amount_out),
        r@.len() == 24,
{
    let mut data: Vec<u8> = Vec::new();
    data.push(248);
    data.push(198);
    data.push(158);
    data.push(145);
    data.push(225);
    data.push(117);
    data.push(135);
    data.push(200);
    proof {
        assert(data@ =~= swap_ix_discriminator());
    }
    push_le_u64(&mut data, amount_in);
    push_le_u64(&mut data, minimum_amount_out);
    proof {
        assert(data@ =~= swap_ix_discriminator() + u64_le_bytes(amount_in) + u64_le_bytes(
            minimum_amount_out,
        ));
    }
    data
}

/// What [`compute_burn_amount`] returns: the measured balance delta, unless
/// the exchange produced nothing, lost funds, or came in under the quoted
/// minimum.
pub open spec fn compute_burn_amount_spec(
    balance_before: u64,
    balance_after: u64,
    minimum_out: u64,
) -> Result<u64, ErrorCode> {
    if balance_after < balance_before {
        Err(ErrorCode::SwapFailed)
    } else {
        let delta = balance_after - balance_before;
        if delta == 0 || delta < minimum_out {
            Err(ErrorCode::SwapFailed)
        } else {
            Ok(delta as u64)
        }
    }
}

/// Measures the exact amount to destroy after an exchange: the difference
/// between the destination balance after and before, never the estimate.
pub fn compute_burn_amount(balance_before: u64, balance_after: u64, minimum_out: u64) -> (r: Result<
    u64,
    ErrorCode,
>)
    ensures
        r == compute_burn_amount_spec(balance_before, balance_after, minimum_out),
{
    if balance_after < balance_before {
        return Err(ErrorCode::SwapFailed);
    }
    let delta = balance_after - balance_before;
    if delta == 0 || delta < minimum_out {
        return Err(ErrorCode::SwapFailed);
    }
    Ok(delta)
}

} // verus!
