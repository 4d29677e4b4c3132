use openfund::dex::{
    add_liquidity, initialize_pool, remove_liquidity, swap, ErrorCode, Pool, PoolKeys, SwapOutcome,
    Withdrawal,
};
use openfund::Address;

fn key(b: u8) -> Address {
    Address::new([b; 32])
}

fn keys() -> PoolKeys {
    PoolKeys {
        token_a_mint: key(1),
        token_b_mint: key(2),
        token_a_account: key(3),
        token_b_account: key(4),
        lp_mint: key(5),
        authority: key(6),
    }
}

fn pool(num: u64, den: u64) -> Pool {
    initialize_pool(keys(), num, den, 254).unwrap()
}

#[test]
fn initialize_pool_keeps_keys_and_fee() {
    let p = pool(3, 1000);
    assert_eq!(p.token_a_mint.bytes, [1; 32]);
    assert_eq!(p.token_b_mint.bytes, [2; 32]);
    assert_eq!(p.token_a_account.bytes, [3; 32]);
    assert_eq!(p.token_b_account.bytes, [4; 32]);
    assert_eq!(p.lp_mint.bytes, [5; 32]);
    assert_eq!(p.authority.bytes, [6; 32]);
    assert_eq!(p.fee_numerator, 3);
    assert_eq!(p.fee_denominator, 1000);
    assert_eq!(p.bump, 254);
}

#[test]
fn initialize_pool_refuses_zero_denominator() {
    assert_eq!(initialize_pool(keys(), 0, 0, 1).unwrap_err(), ErrorCode::InvalidFee);
}

#[test]
fn initialize_pool_refuses_fee_of_one_hundred_percent() {
    assert_eq!(initialize_pool(keys(), 10, 10, 1).unwrap_err(), ErrorCode::InvalidFee);
    assert_eq!(initialize_pool(keys(), 11, 10, 1).unwrap_err(), ErrorCode::InvalidFee);
    assert!(initialize_pool(keys(), 9, 10, 1).is_ok());
}

#[test]
fn add_liquidity_needs_both_amounts() {
    assert_eq!(add_liquidity(0, 5, 0, 10, 10, 10, 0), Err(ErrorCode::InvalidAmount));
    assert_eq!(add_liquidity(5, 0, 0, 10, 10, 10, 0), Err(ErrorCode::InvalidAmount));
}

#[test]
fn add_liquidity_first_deposit_mints_geometric_mean() {
    assert_eq!(add_liquidity(100, 400, 0, 0, 0, 0, 200), Ok(200));
    assert_eq!(add_liquidity(100, 400, 201, 0, 0, 0, 200), Err(ErrorCode::SlippageExceeded));
}

#[test]
fn add_liquidity_mints_smaller_share() {
    // 100 * 500 / 1000 = 50 from A, 200 * 500 / 1000 = 100 from B
    assert_eq!(add_liquidity(100, 200, 0, 1000, 1000, 500, 0), Ok(50));
    assert_eq!(add_liquidity(300, 200, 0, 1000, 1000, 500, 0), Ok(100));
}

#[test]
fn add_liquidity_rounds_down() {
    // 7 * 10 / 3 = 23.33
    assert_eq!(add_liquidity(7, 7, 0, 3, 3, 10, 0), Ok(23));
}

#[test]
fn add_liquidity_slippage() {
    assert_eq!(add_liquidity(100, 200, 51, 1000, 1000, 500, 0), Err(ErrorCode::SlippageExceeded));
    assert_eq!(add_liquidity(100, 200, 50, 1000, 1000, 500, 0), Ok(50));
}

#[test]
fn add_liquidity_truncates_to_64_bits() {
    // u64::MAX * 2 / 1 overflows 64 bits and is truncated
    assert_eq!(add_liquidity(u64::MAX, u64::MAX, 0, 1, 1, 2, 0), Ok(u64::MAX - 1));
}

#[test]
fn remove_liquidity_needs_lp_amount() {
    assert_eq!(remove_liquidity(0, 0, 0, 10, 10, 10), Err(ErrorCode::InvalidAmount));
}

#[test]
fn remove_liquidity_pays_pro_rata() {
    assert_eq!(
        remove_liquidity(50, 0, 0, 1100, 1200, 550),
        Ok(Withdrawal { amount_a: 100, amount_b: 109 })
    );
}

#[test]
fn remove_liquidity_slippage_on_either_token() {
    assert_eq!(remove_liquidity(50, 101, 0, 1100, 1200, 550), Err(ErrorCode::SlippageExceeded));
    assert_eq!(remove_liquidity(50, 0, 110, 1100, 1200, 550), Err(ErrorCode::SlippageExceeded));
    assert!(remove_liquidity(50, 100, 109, 1100, 1200, 550).is_ok());
}

#[test]
fn swap_a_for_b_constant_product() {
    let p = pool(3, 1000);
    let out = swap(&p, 1000, 0, &key(1), 10_000, 10_000).unwrap();
    // fee 3, net 997, new reserve out 10^8 / 10997 = 9093
    assert_eq!(
        out,
        SwapOutcome { input_is_a: true, fee: 3, amount_in_after_fee: 997, amount_out: 907 }
    );
}

#[test]
fn swap_b_for_a_uses_other_reserves() {
    let p = pool(3, 1000);
    let out = swap(&p, 1000, 0, &key(2), 40_000, 10_000).unwrap();
    // input reserve is B = 10_000, output reserve A = 40_000
    // new reserve out = 4 * 10^8 / 10997 = 36373
    assert_eq!(
        out,
        SwapOutcome { input_is_a: false, fee: 3, amount_in_after_fee: 997, amount_out: 3627 }
    );
}

#[test]
fn swap_needs_input() {
    let p = pool(3, 1000);
    assert_eq!(swap(&p, 0, 0, &key(1), 10, 10), Err(ErrorCode::InvalidAmount));
}

#[test]
fn swap_slippage() {
    let p = pool(3, 1000);
    assert_eq!(swap(&p, 1000, 908, &key(1), 10_000, 10_000), Err(ErrorCode::SlippageExceeded));
    assert!(swap(&p, 1000, 907, &key(1), 10_000, 10_000).is_ok());
}

#[test]
fn swap_output_grows_with_input() {
    let p = pool(25, 10_000);
    let mut last = 0;
    for amount in [1u64, 2, 10, 99, 100, 1000, 12_345, 1_000_000] {
        let out = swap(&p, amount, 0, &key(1), 500_000, 700_000).unwrap().amount_out;
        assert!(out >= last);
        last = out;
    }
}

#[test]
fn swap_keeps_product_up_to_rounding() {
    let p = pool(3, 1000);
    let (ra, rb) = (123_456u64, 654_321u64);
    let out = swap(&p, 7_777, 0, &key(1), ra, rb).unwrap();
    let k = ra as u128 * rb as u128;
    let new_in = (ra + out.amount_in_after_fee) as u128;
    let new_out = (rb - out.amount_out) as u128;
    assert!(new_in * new_out <= k);
    assert!(k < new_in * (new_out + 1));
}

#[test]
fn swap_can_empty_a_tiny_pool() {
    // the output reserve rounds down to zero
    let p = pool(0, 1);
    let out = swap(&p, 5, 0, &key(1), 1, 1).unwrap();
    assert_eq!(out.amount_out, 1);
}

#[test]
fn deposit_then_withdraw_gives_back_at_most_deposit() {
    let (ra, rb, supply) = (1_000u64, 3_000u64, 700u64);
    let lp = add_liquidity(333, 1_001, 0, ra, rb, supply, 0).unwrap();
    let w = remove_liquidity(lp, 0, 0, ra + 333, rb + 1_001, supply + lp).unwrap();
    assert!(w.amount_a <= 333);
    assert!(w.amount_b <= 1_001);
}

#[test]
fn first_deposit_round_trip_is_exact() {
    let lp = add_liquidity(100, 400, 0, 0, 0, 0, 200).unwrap();
    assert_eq!(lp, 200);
    assert_eq!(remove_liquidity(lp, 0, 0, 100, 400, lp), Ok(Withdrawal { amount_a: 100, amount_b: 400 }));
}

#[test]
fn withdrawal_never_exceeds_reserves() {
    for lp in [1u64, 10, 499, 500] {
        let w = remove_liquidity(lp, 0, 0, 777, 12_345, 500).unwrap();
        assert!(w.amount_a <= 777);
        assert!(w.amount_b <= 12_345);
    }
    assert_eq!(remove_liquidity(500, 0, 0, 777, 12_345, 500), Ok(Withdrawal { amount_a: 777, amount_b: 12_345 }));
}
