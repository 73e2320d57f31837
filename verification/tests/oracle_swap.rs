use matrix_system::decimal::Decimal;
use matrix_system::errors::ErrorCode;
use matrix_system::oracle::{calculate_minimum_sol_deposit, OracleReading};
use matrix_system::swap::{
    calculate_swap_amount_out, compute_burn_amount, decode_pool_enabled, decode_reserves,
    quote_swap_output, read_le_u64, swap_instruction_data, ReserveSnapshot,
};

fn reading(price: i128, decimals: u32, now: i64, feed: i64) -> OracleReading {
    OracleReading { price, decimals, current_timestamp: now, feed_timestamp: feed }
}

// At one hundred USD for one unit of a billion base units, the ten-USD
// minimum is a tenth of a unit.
#[test]
fn minimum_deposit_at_hundred_usd() {
    let r = reading(100_00000000, 8, 1_000, 1_000);
    assert_eq!(calculate_minimum_sol_deposit(&r), Ok(100_000_000));
}

// A stale reading falls back to the fixed hundred-USD price.
#[test]
fn minimum_deposit_falls_back_when_stale() {
    let r = reading(200_00000000, 8, 200_000, 0);
    assert_eq!(calculate_minimum_sol_deposit(&r), Ok(100_000_000));
}

// A reading within the age bound is taken as is.
#[test]
fn minimum_deposit_uses_fresh_price() {
    let r = reading(200_00000000, 8, 86_400, 0);
    assert_eq!(calculate_minimum_sol_deposit(&r), Ok(50_000_000));
}

#[test]
fn minimum_deposit_rejects_non_positive_price() {
    assert_eq!(
        calculate_minimum_sol_deposit(&reading(0, 8, 0, 0)),
        Err(ErrorCode::PriceFeedReadFailed)
    );
    assert_eq!(
        calculate_minimum_sol_deposit(&reading(-5, 8, 0, 0)),
        Err(ErrorCode::PriceFeedReadFailed)
    );
}

#[test]
fn minimum_deposit_rejects_oversized_scale() {
    assert_eq!(
        calculate_minimum_sol_deposit(&reading(1, 29, 0, 0)),
        Err(ErrorCode::PriceFeedReadFailed)
    );
}

// A microscopic price saturates the minimum at the largest amount.
#[test]
fn minimum_deposit_saturates() {
    let r = reading(1, 28, 0, 0);
    assert_eq!(calculate_minimum_sol_deposit(&r), Ok(u64::MAX));
}

#[test]
fn read_le_u64_reads_little_endian() {
    let data = vec![0xAA, 0x01, 0x02, 0x03, 0x04, 0x05, 0x06, 0x07, 0x08, 0xBB];
    assert_eq!(read_le_u64(&data, 1), 0x0807060504030201);
}

fn vault_bytes(total: u64) -> Vec<u8> {
    let mut v = vec![0u8; 19];
    v[11..19].copy_from_slice(&total.to_le_bytes());
    v
}

fn token_account_bytes(amount: u64) -> Vec<u8> {
    let mut v = vec![0u8; 72];
    v[64..72].copy_from_slice(&amount.to_le_bytes());
    v
}

fn mint_bytes(supply: u64) -> Vec<u8> {
    let mut v = vec![0u8; 44];
    v[36..44].copy_from_slice(&supply.to_le_bytes());
    v
}

fn pool_bytes(enabled: bool) -> Vec<u8> {
    let mut v = vec![0u8; 240];
    v[233] = if enabled { 1 } else { 0 };
    v
}

#[test]
fn pool_enabled_flag_is_decoded() {
    assert_eq!(decode_pool_enabled(&pool_bytes(true)), Ok(true));
    assert_eq!(decode_pool_enabled(&pool_bytes(false)), Ok(false));
    assert_eq!(
        decode_pool_enabled(&vec![0u8; 100]),
        Err(ErrorCode::PriceMeteoraReadFailed)
    );
}

#[test]
fn reserves_are_decoded_from_raw_accounts() {
    let snapshot = decode_reserves(
        &pool_bytes(true),
        &vault_bytes(1_000),
        &vault_bytes(100),
        &token_account_bytes(100),
        &token_account_bytes(100),
        &mint_bytes(100),
        &mint_bytes(100),
    )
    .unwrap();
    assert_eq!(
        snapshot,
        ReserveSnapshot {
            pool_enabled: true,
            vault_a_total: 1_000,
            vault_b_total: 100,
            a_vault_lp_amount: 100,
            b_vault_lp_amount: 100,
            a_vault_lp_supply: 100,
            b_vault_lp_supply: 100,
        }
    );
}

#[test]
fn disabled_pool_is_rejected() {
    let r = calculate_swap_amount_out(
        &pool_bytes(false),
        &vault_bytes(1_000),
        &vault_bytes(100),
        &token_account_bytes(100),
        &token_account_bytes(100),
        &mint_bytes(100),
        &mint_bytes(100),
        50,
    );
    assert_eq!(r, Err(ErrorCode::PriceMeteoraReadFailed));
}

#[test]
fn short_vault_account_is_rejected() {
    let r = calculate_swap_amount_out(
        &pool_bytes(true),
        &vec![0u8; 10],
        &vault_bytes(100),
        &token_account_bytes(100),
        &token_account_bytes(100),
        &mint_bytes(100),
        &mint_bytes(100),
        50,
    );
    assert_eq!(r, Err(ErrorCode::PriceMeteoraReadFailed));
}

// Ten reward units per native unit: fifty units in quote five hundred out,
// floored at one percent.
#[test]
fn quote_prices_at_pool_ratio_with_slippage_floor() {
    let r = calculate_swap_amount_out(
        &pool_bytes(true),
        &vault_bytes(1_000),
        &vault_bytes(100),
        &token_account_bytes(100),
        &token_account_bytes(100),
        &mint_bytes(100),
        &mint_bytes(100),
        50,
    );
    assert_eq!(r, Ok(5));
}

// The minimum never quotes zero: a dust-sized estimate floors at one unit.
#[test]
fn quote_floors_at_one_unit() {
    let s = ReserveSnapshot {
        pool_enabled: true,
        vault_a_total: 1_000,
        vault_b_total: 100,
        a_vault_lp_amount: 100,
        b_vault_lp_amount: 100,
        a_vault_lp_supply: 100,
        b_vault_lp_supply: 100,
    };
    assert_eq!(quote_swap_output(&s, 1), Ok(1));
}

#[test]
fn quote_rejects_empty_pool_side() {
    let s = ReserveSnapshot {
        pool_enabled: true,
        vault_a_total: 1_000,
        vault_b_total: 100,
        a_vault_lp_amount: 100,
        b_vault_lp_amount: 100,
        a_vault_lp_supply: 0,
        b_vault_lp_supply: 100,
    };
    assert_eq!(quote_swap_output(&s, 50), Err(ErrorCode::PriceMeteoraReadFailed));
}

#[test]
fn quote_detects_overflowing_deposit() {
    let s = ReserveSnapshot {
        pool_enabled: true,
        vault_a_total: u64::MAX,
        vault_b_total: 1,
        a_vault_lp_amount: u64::MAX,
        b_vault_lp_amount: 1,
        a_vault_lp_supply: u64::MAX,
        b_vault_lp_supply: 1,
    };
    assert_eq!(
        quote_swap_output(&s, u64::MAX),
        Err(ErrorCode::MeteoraCalculationOverflow)
    );
}

#[test]
fn swap_payload_is_tag_and_amounts() {
    let data = swap_instruction_data(0x0102030405060708, 0x1112131415161718);
    let mut expected = vec![248u8, 198, 158, 145, 225, 117, 135, 200];
    expected.extend_from_slice(&0x0102030405060708u64.to_le_bytes());
    expected.extend_from_slice(&0x1112131415161718u64.to_le_bytes());
    assert_eq!(data, expected);
}

// The amount destroyed is the measured balance delta, never the estimate.
#[test]
fn burn_amount_is_the_balance_delta() {
    assert_eq!(compute_burn_amount(10, 250, 100), Ok(240));
    assert_eq!(compute_burn_amount(10, 10, 1), Err(ErrorCode::SwapFailed));
    assert_eq!(compute_burn_amount(10, 100, 100), Err(ErrorCode::SwapFailed));
    assert_eq!(compute_burn_amount(100, 10, 1), Err(ErrorCode::SwapFailed));
}

#[test]
fn decimal_renders_with_point_inside() {
    assert_eq!(Decimal::new(123456, 2).to_display_string(), "1234.56");
}

#[test]
fn decimal_renders_leading_zero_padding() {
    assert_eq!(Decimal::new(5, 3).to_display_string(), "0.005");
    assert_eq!(Decimal::new(5, 1).to_display_string(), "0.5");
}

#[test]
fn decimal_renders_whole_numbers_with_trailing_point() {
    assert_eq!(Decimal::new(42, 0).to_display_string(), "42.");
    assert_eq!(Decimal::new(0, 0).to_display_string(), "0.");
}
