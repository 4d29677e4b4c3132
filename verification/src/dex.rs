//! Constant-product liquidity pools: creating a pool, adding and removing
//! liquidity, and swapping one token of the pair for the other.
use vstd::prelude::*;

use crate::address::Address;
use crate::math::{
    lemma_div_monotone,
    lemma_mul_fits_u128,
    lemma_scale_down_le,
    lemma_scale_down_lt,
    lemma_scaled_growth,
    lemma_truncate_le,
};

verus! {

/// Errors of the pool instructions.
#[derive(Clone, Copy, Debug, PartialEq, Eq, Structural)]
pub enum ErrorCode {
    /// The fee numerator and denominator do not describe a fee below 100%.
    InvalidFee,
    /// An amount that must be positive is zero.
    InvalidAmount,
    /// The caller's slippage bound is not met.
    SlippageExceeded,
}

/// The accounts a pool is created with.
#[derive(Clone, Copy, Debug)]
pub struct PoolKeys {
    pub token_a_mint: Address,
    pub token_b_mint: Address,
    pub token_a_account: Address,
    pub token_b_account: Address,
    pub lp_mint: Address,
    pub authority: Address,
}

/// The state of a pool.
#[derive(Clone, Copy, Debug)]
pub struct Pool {
    pub token_a_mint: Address,
    pub token_b_mint: Address,
    pub token_a_account: Address,
    pub token_b_account: Address,
    pub lp_mint: Address,
    pub authority: Address,
    pub fee_numerator: u64,
    pub fee_denominator: u64,
    pub bump: u8,
}

impl Pool {
    /// The fee is `fee_numerator / fee_denominator` of the input, below 100%.
    /// Every pool that `initialize_pool` creates has this property.
    pub open spec fn fees_valid(self) -> bool {
        self.fee_denominator > 0 && self.fee_numerator < self.fee_denominator
    }
}

/// `x * y / d`, rounded down and truncated to 64 bits.
pub open spec fn mul_div_u64(x: u64, y: u64, d: u64) -> u64 {
    ((x * y) / (d as int)) as u64
}

/// What `initialize_pool` returns.
pub open spec fn initialize_pool_result(
    keys: PoolKeys,
    fee_numerator: u64,
    fee_denominator: u64,
    bump: u8,
) -> Result<Pool, ErrorCode> {
    if fee_denominator == 0 || fee_numerator >= fee_denominator {
        Err(ErrorCode::InvalidFee)
    } else {
        Ok(
            Pool {
                token_a_mint: keys.token_a_mint,
                token_b_mint: keys.token_b_mint,
                token_a_account: keys.token_a_account,
                token_b_account: keys.token_b_account,
                lp_mint: keys.lp_mint,
                authority: keys.authority,
                fee_numerator,
                fee_denominator,
                bump,
            },
        )
    }
}

/// LP tokens minted for a deposit of `amount_a` and `amount_b` into reserves
/// `reserve_a` and `reserve_b` with `lp_supply` LP tokens outstanding.
/// The first deposit (no LP tokens yet) mints `geometric_mean`, the square
/// root of `amount_a * amount_b` that the caller computes in floating point.
pub open spec fn lp_tokens_to_mint(
    amount_a: u64,
    amount_b: u64,
    reserve_a: u64,
    reserve_b: u64,
    lp_supply: u64,
    geometric_mean: u64,
) -> u64 {
    if lp_supply == 0 {
        geometric_mean
    } else {
        let from_a = mul_div_u64(amount_a, lp_supply, reserve_a);
        let from_b = mul_div_u64(amount_b, lp_supply, reserve_b);
        if from_a <= from_b {
            from_a
        } else {
            from_b
        }
    }
}

/// What `add_liquidity` returns.
pub open spec fn add_liquidity_result(
    amount_a: u64,
    amount_b: u64,
    min_lp_tokens: u64,
    reserve_a: u64,
    reserve_b: u64,
    lp_supply: u64,
    geometric_mean: u64,
) -> Result<u64, ErrorCode> {
    if amount_a == 0 || amount_b == 0 {
        Err(ErrorCode::InvalidAmount)
    } else {
        let lp = lp_tokens_to_mint(amount_a, amount_b, reserve_a, reserve_b, lp_supply, geometric_mean);
        if lp < min_lp_tokens {
            Err(ErrorCode::SlippageExceeded)
        } else {
            Ok(lp)
        }
    }
}

/// The token amounts paid out for burnt LP tokens.
#[derive(Clone, Copy, Debug, PartialEq, Eq, Structural)]
pub struct Withdrawal {
    pub amount_a: u64,
    pub amount_b: u64,
}

/// What `remove_liquidity` returns.
pub open spec fn remove_liquidity_result(
    lp_amount: u64,
    min_amount_a: u64,
    min_amount_b: u64,
    reserve_a: u64,
    reserve_b: u64,
    lp_supply: u64,
) -> Result<Withdrawal, ErrorCode> {
    if lp_amount == 0 {
        Err(ErrorCode::InvalidAmount)
    } else {
        let amount_a = mul_div_u64(lp_amount, reserve_a, lp_supply);
        let amount_b = mul_div_u64(lp_amount, reserve_b, lp_supply);
        if amount_a < min_amount_a || amount_b < min_amount_b {
            Err(ErrorCode::SlippageExceeded)
        } else {
            Ok(Withdrawal { amount_a, amount_b })
        }
    }
}

/// The outcome of a swap.
#[derive(Clone, Copy, Debug, PartialEq, Eq, Structural)]
pub struct SwapOutcome {
    /// Whether token A goes in (and token B comes out).
    pub input_is_a: bool,
    /// The fee kept from the input.
    pub fee: u64,
    /// The input that is priced, after the fee.
    pub amount_in_after_fee: u64,
    /// What the user receives of the other token.
    pub amount_out: u64,
}

/// The reserves of the input and of the output token.
pub open spec fn swap_reserves(input_is_a: bool, reserve_a: u64, reserve_b: u64) -> (u64, u64) {
    if input_is_a {
        (reserve_a, reserve_b)
    } else {
        (reserve_b, reserve_a)
    }
}

/// The fee a swap of `amount_in` pays to the pool.
pub open spec fn swap_fee(pool: Pool, amount_in: u64) -> u64 {
    mul_div_u64(amount_in, pool.fee_numerator, pool.fee_denominator)
}

/// The output reserve left after a priced input of `net_in`: the constant
/// product divided by the new input reserve, rounded down.
pub open spec fn new_reserve_out(reserve_in: u64, reserve_out: u64, net_in: int) -> int {
    (reserve_in * reserve_out) / (reserve_in + net_in)
}

/// The output of a swap of `amount_in` (fee included) against the reserves.
pub open spec fn swap_amount_out(pool: Pool, amount_in: u64, reserve_in: u64, reserve_out: u64) -> int {
    reserve_out - new_reserve_out(reserve_in, reserve_out, amount_in - swap_fee(pool, amount_in))
}

/// A swap of `amount_in` runs without a division by zero or an overflow: the
/// fee has a denominator, is at most the input, and the new input reserve is
/// positive and fits in 64 bits. Every pool with a valid fee meets the first
/// two; the last holds but for reserves close to the 64-bit limit.
pub open spec fn swap_fits(
    pool: Pool,
    amount_in: u64,
    input_is_a: bool,
    reserve_a: u64,
    reserve_b: u64,
) -> bool {
    let (reserve_in, _) = swap_reserves(input_is_a, reserve_a, reserve_b);
    amount_in > 0 ==> {
        &&& pool.fee_denominator > 0
        &&& swap_fee(pool, amount_in) <= amount_in
        &&& 0 < reserve_in + (amount_in - swap_fee(pool, amount_in)) <= u64::MAX
    }
}

/// What `swap` returns.
pub open spec fn swap_result(
    pool: Pool,
    amount_in: u64,
    min_amount_out: u64,
    input_is_a: bool,
    reserve_a: u64,
    reserve_b: u64,
) -> Result<SwapOutcome, ErrorCode> {
    if amount_in == 0 {
        Err(ErrorCode::InvalidAmount)
    } else {
        let (reserve_in, reserve_out) = swap_reserves(input_is_a, reserve_a, reserve_b);
        let fee = swap_fee(pool, amount_in);
        let amount_out = swap_amount_out(pool, amount_in, reserve_in, reserve_out);
        if amount_out < min_amount_out {
            Err(ErrorCode::SlippageExceeded)
        } else {
            Ok(
                SwapOutcome {
                    input_is_a,
                    fee,
                    amount_in_after_fee: (amount_in - fee) as u64,
                    amount_out: amount_out as u64,
                },
            )
        }
    }
}

/// `x * y / d` on 64-bit values, computed in 128 bits and truncated.
fn mul_div(x: u64, y: u64, d: u64) -> (res: u64)
    requires
        d > 0,
    ensures
        res == mul_div_u64(x, y, d),
{
    proof {
        lemma_mul_fits_u128(x, y);
    }
    ((x as u128) * (y as u128) / (d as u128)) as u64
}

/// Creates a pool; the fee must be below 100%.
pub fn initialize_pool(keys: PoolKeys, fee_numerator: u64, fee_denominator: u64, bump: u8) -> (res:
    Result<Pool, ErrorCode>)
    ensures
        res == initialize_pool_result(keys, fee_numerator, fee_denominator, bump),
        res matches Ok(pool) ==> pool.fees_valid(),
{
    if !(fee_denominator > 0) {
        return Err(ErrorCode::InvalidFee);
    }
    if !(fee_numerator < fee_denominator) {
        return Err(ErrorCode::InvalidFee);
    }
    Ok(
        Pool {
            token_a_mint: keys.token_a_mint,
            token_b_mint: keys.token_b_mint,
            token_a_account: keys.token_a_account,
            token_b_account: keys.token_b_account,
            lp_mint: keys.lp_mint,
            authority: keys.authority,
            fee_numerator,
            fee_denominator,
            bump,
        },
    )
}

/// The LP tokens to mint for a deposit, checked against `min_lp_tokens`.
/// The reserves and supply are read before the deposit is transferred.
pub fn add_liquidity(
    amount_a: u64,
    amount_b: u64,
    min_lp_tokens: u64,
    reserve_a: u64,
    reserve_b: u64,
    lp_supply: u64,
    geometric_mean: u64,
) -> (res: Result<u64, ErrorCode>)
    requires
        amount_a > 0 && amount_b > 0 && lp_supply > 0 ==> reserve_a > 0 && reserve_b > 0,
    ensures
        res == add_liquidity_result(
            amount_a,
            amount_b,
            min_lp_tokens,
            reserve_a,
            reserve_b,
            lp_supply,
            geometric_mean,
        ),
{
    if !(amount_a > 0 && amount_b > 0) {
        return Err(ErrorCode::InvalidAmount);
    }
    let lp_tokens = if lp_supply == 0 {
        geometric_mean
    } else {
        let lp_amount_a = mul_div(amount_a, lp_supply, reserve_a);
        let lp_amount_b = mul_div(amount_b, lp_supply, reserve_b);
        if lp_amount_a <= lp_amount_b {
            lp_amount_a
        } else {
            lp_amount_b
        }
    };
    if !(lp_tokens >= min_lp_tokens) {
        return Err(ErrorCode::SlippageExceeded);
    }
    Ok(lp_tokens)
}

/// The token amounts paid out for `lp_amount` burnt LP tokens, checked against
/// the caller's minimums.
pub fn remove_liquidity(
    lp_amount: u64,
    min_amount_a: u64,
    min_amount_b: u64,
    reserve_a: u64,
    reserve_b: u64,
    lp_supply: u64,
) -> (res: Result<Withdrawal, ErrorCode>)
    requires
        lp_amount > 0 ==> lp_supply > 0,
    ensures
        res == remove_liquidity_result(
            lp_amount,
            min_amount_a,
            min_amount_b,
            reserve_a,
            reserve_b,
            lp_supply,
        ),
{
    if !(lp_amount > 0) {
        return Err(ErrorCode::InvalidAmount);
    }
    let amount_a = mul_div(lp_amount, reserve_a, lp_supply);
    let amount_b = mul_div(lp_amount, reserve_b, lp_supply);
    if !(amount_a >= min_amount_a) {
        return Err(ErrorCode::SlippageExceeded);
    }
    if !(amount_b >= min_amount_b) {
        return Err(ErrorCode::SlippageExceeded);
    }
    Ok(Withdrawal { amount_a, amount_b })
}

/// Whether a swap of `amount_in` of the token whose mint is `token_in_mint`
/// runs without a division by zero or an overflow.
pub fn swap_is_computable(
    pool: &Pool,
    amount_in: u64,
    token_in_mint: &Address,
    reserve_a: u64,
    reserve_b: u64,
) -> (res: bool)
    ensures
        res == swap_fits(*pool, amount_in, token_in_mint@ == pool.token_a_mint@, reserve_a, reserve_b),
{
    if amount_in == 0 {
        return true;
    }
    if pool.fee_denominator == 0 {
        return false;
    }
    let fee = mul_div(amount_in, pool.fee_numerator, pool.fee_denominator);
    if fee > amount_in {
        return false;
    }
    let amount_in_after_fee = amount_in - fee;
    let reserve_in = if token_in_mint.same_as(&pool.token_a_mint) {
        reserve_a
    } else {
        reserve_b
    };
    match reserve_in.checked_add(amount_in_after_fee) {
        Some(new_reserve_in) => new_reserve_in > 0,
        None => false,
    }
}

/// Prices a swap of `amount_in` of the token whose mint is `token_in_mint`
/// (token A when it is the pool's token A mint, else token B), checked
/// against `min_amount_out`.
pub fn swap(
    pool: &Pool,
    amount_in: u64,
    min_amount_out: u64,
    token_in_mint: &Address,
    reserve_a: u64,
    reserve_b: u64,
) -> (res: Result<SwapOutcome, ErrorCode>)
    requires
        swap_fits(*pool, amount_in, token_in_mint@ == pool.token_a_mint@, reserve_a, reserve_b),
    ensures
        res == swap_result(
            *pool,
            amount_in,
            min_amount_out,
            token_in_mint@ == pool.token_a_mint@,
            reserve_a,
            reserve_b,
        ),
{
    if !(amount_in > 0) {
        return Err(ErrorCode::InvalidAmount);
    }
    let fee = mul_div(amount_in, pool.fee_numerator, pool.fee_denominator);
    let amount_in_after_fee = amount_in - fee;
    let input_is_a = token_in_mint.same_as(&pool.token_a_mint);
    let (reserve_in, reserve_out) = if input_is_a {
        (reserve_a, reserve_b)
    } else {
        (reserve_b, reserve_a)
    };
    let new_reserve_in = reserve_in + amount_in_after_fee;
    proof {
        lemma_mul_fits_u128(reserve_in, reserve_out);
        lemma_scale_down_le(reserve_in as int, reserve_out as int, new_reserve_in as int);
    }
    let product = (reserve_in as u128) * (reserve_out as u128);
    let new_reserve_out = (product / (new_reserve_in as u128)) as u64;
    let amount_out = reserve_out - new_reserve_out;
    if !(amount_out >= min_amount_out) {
        return Err(ErrorCode::SlippageExceeded);
    }
    Ok(SwapOutcome { input_is_a, fee, amount_in_after_fee, amount_out })
}


/// A swap never pays out more than the output reserve holds, and the fee and
/// the priced input add up to the whole input, the priced input being positive.
pub proof fn lemma_swap_within_reserve(
    pool: Pool,
    amount_in: u64,
    min_amount_out: u64,
    input_is_a: bool,
    reserve_a: u64,
    reserve_b: u64,
)
    requires
        pool.fees_valid(),
        swap_fits(pool, amount_in, input_is_a, reserve_a, reserve_b),
    ensures
        swap_result(pool, amount_in, min_amount_out, input_is_a, reserve_a, reserve_b) matches Ok(
            outcome,
        ) ==> {
            let (_, reserve_out) = swap_reserves(input_is_a, reserve_a, reserve_b);
            &&& outcome.amount_out <= reserve_out
            &&& outcome.fee + outcome.amount_in_after_fee == amount_in
            &&& outcome.amount_in_after_fee > 0
        },
{
    if amount_in > 0 {
        lemma_swap_arithmetic(pool, amount_in, input_is_a, reserve_a, reserve_b);
    }
}

/// The facts about one swap's arithmetic that the laws use.
proof fn lemma_swap_arithmetic(
    pool: Pool,
    amount_in: u64,
    input_is_a: bool,
    reserve_a: u64,
    reserve_b: u64,
)
    requires
        pool.fees_valid(),
        amount_in > 0,
    ensures
        swap_fee(pool, amount_in) == amount_in * pool.fee_numerator / (pool.fee_denominator as int),
        swap_fee(pool, amount_in) < amount_in,
        ({
            let (reserve_in, reserve_out) = swap_reserves(input_is_a, reserve_a, reserve_b);
            let net = amount_in - swap_fee(pool, amount_in);
            &&& 0 <= new_reserve_out(reserve_in, reserve_out, net) <= reserve_out
            &&& 0 <= swap_amount_out(pool, amount_in, reserve_in, reserve_out) <= reserve_out
        }),
{
    let (reserve_in, reserve_out) = swap_reserves(input_is_a, reserve_a, reserve_b);
    lemma_scale_down_lt(pool.fee_numerator as int, amount_in as int, pool.fee_denominator as int);
    assert(amount_in * pool.fee_numerator == pool.fee_numerator * amount_in) by (nonlinear_arith);
    assert(0 <= amount_in * pool.fee_numerator) by (nonlinear_arith);
    vstd::arithmetic::div_mod::lemma_div_pos_is_pos(
        amount_in * pool.fee_numerator,
        pool.fee_denominator as int,
    );
    let net = amount_in - swap_fee(pool, amount_in);
    lemma_scale_down_le(reserve_in as int, reserve_out as int, reserve_in + net);
}

/// A swap keeps the constant product up to rounding: with the priced input
/// added and the output taken away, the product of the reserves is at most
/// the old product, and less than one more unit of output reserve would make it.
pub proof fn lemma_swap_keeps_constant_product(
    pool: Pool,
    amount_in: u64,
    min_amount_out: u64,
    input_is_a: bool,
    reserve_a: u64,
    reserve_b: u64,
)
    requires
        pool.fees_valid(),
        swap_fits(pool, amount_in, input_is_a, reserve_a, reserve_b),
    ensures
        swap_result(pool, amount_in, min_amount_out, input_is_a, reserve_a, reserve_b) matches Ok(
            outcome,
        ) ==> {
            let (reserve_in, reserve_out) = swap_reserves(input_is_a, reserve_a, reserve_b);
            let new_in = reserve_in + outcome.amount_in_after_fee;
            let new_out = reserve_out - outcome.amount_out;
            &&& new_in * new_out <= reserve_in * reserve_out
            &&& reserve_in * reserve_out < new_in * (new_out + 1)
        },
{
    if amount_in > 0 {
        lemma_swap_arithmetic(pool, amount_in, input_is_a, reserve_a, reserve_b);
        let (reserve_in, reserve_out) = swap_reserves(input_is_a, reserve_a, reserve_b);
        let net = amount_in - swap_fee(pool, amount_in);
        let k = reserve_in * reserve_out;
        let new_in = reserve_in + net;
        vstd::arithmetic::div_mod::lemma_fundamental_div_mod(k, new_in);
        vstd::arithmetic::div_mod::lemma_mod_bound(k, new_in);
        let q = k / new_in;
        assert(new_in * q <= k);
        assert(k < new_in * (q + 1)) by (nonlinear_arith)
            requires
                k == new_in * q + k % new_in,
                k % new_in < new_in,
        ;
    }
}

/// A larger input never buys less: on the same pool, reserves and direction,
/// when a swap of `smaller_in` is accepted, a swap of `larger_in` with the same
/// bound is accepted too, and every accepted larger swap pays out at least as
/// much.
pub proof fn lemma_swap_output_monotone(
    pool: Pool,
    smaller_in: u64,
    larger_in: u64,
    min_amount_out: u64,
    larger_min_amount_out: u64,
    input_is_a: bool,
    reserve_a: u64,
    reserve_b: u64,
)
    requires
        pool.fees_valid(),
        0 < smaller_in <= larger_in,
    ensures
        swap_result(pool, smaller_in, min_amount_out, input_is_a, reserve_a, reserve_b) is Ok
            ==> swap_result(pool, larger_in, min_amount_out, input_is_a, reserve_a, reserve_b) is Ok,
        swap_result(pool, smaller_in, min_amount_out, input_is_a, reserve_a, reserve_b) matches Ok(
            smaller,
        ) ==> (swap_result(
            pool,
            larger_in,
            larger_min_amount_out,
            input_is_a,
            reserve_a,
            reserve_b,
        ) matches Ok(larger) ==> smaller.amount_out <= larger.amount_out),
{
    let (reserve_in, reserve_out) = swap_reserves(input_is_a, reserve_a, reserve_b);
    lemma_swap_amount_monotone(pool, smaller_in, larger_in, reserve_in, reserve_out);
    lemma_swap_arithmetic(pool, smaller_in, input_is_a, reserve_a, reserve_b);
    lemma_swap_arithmetic(pool, larger_in, input_is_a, reserve_a, reserve_b);
}

/// The output of a swap grows with its input, for a pool with a valid fee.
proof fn lemma_swap_amount_monotone(
    pool: Pool,
    smaller_in: u64,
    larger_in: u64,
    reserve_in: u64,
    reserve_out: u64,
)
    requires
        pool.fees_valid(),
        0 < smaller_in <= larger_in,
    ensures
        swap_amount_out(pool, smaller_in, reserve_in, reserve_out) <= swap_amount_out(
            pool,
            larger_in,
            reserve_in,
            reserve_out,
        ),
{
    lemma_swap_arithmetic(pool, smaller_in, true, reserve_in, reserve_out);
    lemma_swap_arithmetic(pool, larger_in, true, reserve_in, reserve_out);
    lemma_scaled_growth(
        smaller_in as int,
        larger_in - smaller_in,
        pool.fee_numerator as int,
        pool.fee_denominator as int,
    );
    let net1 = smaller_in - swap_fee(pool, smaller_in);
    let net2 = larger_in - swap_fee(pool, larger_in);
    assert(net1 <= net2);
    assert(0 <= reserve_in * reserve_out) by (nonlinear_arith);
    lemma_div_monotone(
        reserve_in * reserve_out,
        reserve_in * reserve_out,
        reserve_in + net2,
        reserve_in + net1,
    );
}

/// Burning a share of LP tokens no larger than the supply never pays out more
/// than the reserves hold.
pub proof fn lemma_withdrawal_within_reserves(
    lp_amount: u64,
    min_amount_a: u64,
    min_amount_b: u64,
    reserve_a: u64,
    reserve_b: u64,
    lp_supply: u64,
)
    requires
        lp_amount <= lp_supply,
    ensures
        remove_liquidity_result(lp_amount, min_amount_a, min_amount_b, reserve_a, reserve_b, lp_supply)
            matches Ok(w) ==> w.amount_a <= reserve_a && w.amount_b <= reserve_b,
{
    if lp_amount > 0 {
        lemma_scale_down_le(lp_amount as int, reserve_a as int, lp_supply as int);
        lemma_scale_down_le(lp_amount as int, reserve_b as int, lp_supply as int);
    }
}

/// The LP tokens minted for a deposit into a funded pool are at most the
/// deposit's pro-rata share of the supply, for either token.
proof fn lemma_minted_share_bound(amount: u64, lp_supply: u64, reserve: u64, minted: u64)
    requires
        reserve > 0,
        minted <= mul_div_u64(amount, lp_supply, reserve),
    ensures
        minted * reserve <= amount * lp_supply,
{
    lemma_mul_fits_u128(amount, lp_supply);
    let x = (amount * lp_supply) / (reserve as int);
    assert(0 <= amount * lp_supply) by (nonlinear_arith);
    vstd::arithmetic::div_mod::lemma_div_pos_is_pos(amount * lp_supply, reserve as int);
    lemma_scale_down_le(reserve as int, x, reserve as int);
    vstd::arithmetic::div_mod::lemma_div_is_ordered(amount * lp_supply, u128::MAX as int, reserve as int);
    assert(x <= u128::MAX);
    lemma_truncate_le(x as u128);
    assert(minted <= x);
    vstd::arithmetic::div_mod::lemma_fundamental_div_mod(amount * lp_supply, reserve as int);
    vstd::arithmetic::div_mod::lemma_mod_bound(amount * lp_supply, reserve as int);
    assert(minted * reserve <= x * reserve) by (nonlinear_arith)
        requires
            minted <= x,
            reserve > 0,
    ;
    assert(x * reserve == reserve * x) by (nonlinear_arith);
}

/// A pool's reserves and LP supply are consistent: without LP tokens there are
/// no reserves.
pub open spec fn pool_balances_valid(reserve_a: u64, reserve_b: u64, lp_supply: u64) -> bool {
    lp_supply == 0 ==> reserve_a == 0 && reserve_b == 0
}

/// The token program accepts a deposit: the reserves after the transfers and
/// the LP supply after the mint stay within 64 bits (it refuses a transfer or
/// mint that would overflow).
pub open spec fn deposit_settles(
    amount_a: u64,
    amount_b: u64,
    reserve_a: u64,
    reserve_b: u64,
    lp_supply: u64,
    geometric_mean: u64,
) -> bool {
    &&& reserve_a + amount_a <= u64::MAX
    &&& reserve_b + amount_b <= u64::MAX
    &&& lp_supply + lp_tokens_to_mint(amount_a, amount_b, reserve_a, reserve_b, lp_supply, geometric_mean) <= u64::MAX
}

/// Depositing into a pool and then burning the LP tokens just minted pays out
/// at most what was deposited, of each token; into an empty pool, exactly that.
pub proof fn lemma_deposit_then_withdraw(
    amount_a: u64,
    amount_b: u64,
    min_lp_tokens: u64,
    reserve_a: u64,
    reserve_b: u64,
    lp_supply: u64,
    geometric_mean: u64,
)
    requires
        pool_balances_valid(reserve_a, reserve_b, lp_supply),
        amount_a > 0 && amount_b > 0 && lp_supply > 0 ==> reserve_a > 0 && reserve_b > 0,
        deposit_settles(amount_a, amount_b, reserve_a, reserve_b, lp_supply, geometric_mean),
    ensures
        add_liquidity_result(
            amount_a,
            amount_b,
            min_lp_tokens,
            reserve_a,
            reserve_b,
            lp_supply,
            geometric_mean,
        ) matches Ok(lp) ==> (lp > 0 ==> (remove_liquidity_result(
            lp,
            0,
            0,
            (reserve_a + amount_a) as u64,
            (reserve_b + amount_b) as u64,
            (lp_supply + lp) as u64,
        ) matches Ok(w) && w.amount_a <= amount_a && w.amount_b <= amount_b)),
        lp_supply == 0 ==> (add_liquidity_result(
            amount_a,
            amount_b,
            min_lp_tokens,
            reserve_a,
            reserve_b,
            lp_supply,
            geometric_mean,
        ) matches Ok(lp) ==> (lp > 0 ==> remove_liquidity_result(lp, 0, 0, amount_a, amount_b, lp)
            == Ok::<Withdrawal, ErrorCode>(Withdrawal { amount_a, amount_b }))),
{
    let lp = lp_tokens_to_mint(amount_a, amount_b, reserve_a, reserve_b, lp_supply, geometric_mean);
    if amount_a > 0 && amount_b > 0 && lp > 0 {
        if lp_supply > 0 {
            lemma_minted_share_bound(amount_a, lp_supply, reserve_a, lp);
            lemma_minted_share_bound(amount_b, lp_supply, reserve_b, lp);
            lemma_round_trip_share(amount_a, reserve_a, lp_supply, lp);
            lemma_round_trip_share(amount_b, reserve_b, lp_supply, lp);
        } else {
            assert(lp * amount_a == amount_a * lp) by (nonlinear_arith);
            assert(lp * amount_b == amount_b * lp) by (nonlinear_arith);
            vstd::arithmetic::div_mod::lemma_div_by_multiple(amount_a as int, lp as int);
            vstd::arithmetic::div_mod::lemma_div_by_multiple(amount_b as int, lp as int);
        }
    }
}

/// With `minted * reserve <= amount * supply`, burning `minted` out of
/// `supply + minted` against `reserve + amount` pays at most `amount`.
proof fn lemma_round_trip_share(amount: u64, reserve: u64, supply: u64, minted: u64)
    requires
        minted > 0,
        minted * reserve <= amount * supply,
        reserve + amount <= u64::MAX,
        supply + minted <= u64::MAX,
    ensures
        mul_div_u64(minted, (reserve + amount) as u64, (supply + minted) as u64) <= amount,
{
    let total = supply + minted;
    assert(minted * (reserve + amount) <= amount * total) by (nonlinear_arith)
        requires
            minted * reserve <= amount * supply,
            total == supply + minted,
    ;
    assert(0 <= minted * (reserve + amount)) by (nonlinear_arith);
    vstd::arithmetic::div_mod::lemma_div_is_ordered(minted * (reserve + amount), amount * total, total);
    vstd::arithmetic::div_mod::lemma_div_by_multiple(amount as int, total);
    vstd::arithmetic::div_mod::lemma_div_pos_is_pos(minted * (reserve + amount), total);
}


/// A swap's direction decides its reserves, whatever their sizes: with token
/// A in, the fee is the pool's share of the input, rounded down, and the
/// output is the B reserve less the constant product over the new A reserve;
/// with token B in, the same with the reserves exchanged. The swap is accepted
/// exactly when a positive input buys at least the caller's minimum.
pub proof fn lemma_swap_prices_by_direction(
    pool: Pool,
    amount_in: u64,
    min_amount_out: u64,
    reserve_a: u64,
    reserve_b: u64,
)
    requires
        pool.fees_valid(),
    ensures
        swap_result(pool, amount_in, min_amount_out, true, reserve_a, reserve_b) matches Ok(out)
            ==> {
            &&& out.input_is_a
            &&& out.fee == amount_in * pool.fee_numerator / (pool.fee_denominator as int)
            &&& out.fee + out.amount_in_after_fee == amount_in
            &&& out.amount_out == reserve_b - (reserve_a * reserve_b) / (reserve_a
                + out.amount_in_after_fee)
        },
        swap_result(pool, amount_in, min_amount_out, false, reserve_a, reserve_b) matches Ok(out)
            ==> {
            &&& !out.input_is_a
            &&& out.fee == amount_in * pool.fee_numerator / (pool.fee_denominator as int)
            &&& out.fee + out.amount_in_after_fee == amount_in
            &&& out.amount_out == reserve_a - (reserve_b * reserve_a) / (reserve_b
                + out.amount_in_after_fee)
        },
        amount_in == 0 ==> swap_result(pool, amount_in, min_amount_out, true, reserve_a, reserve_b)
            == Err::<SwapOutcome, ErrorCode>(ErrorCode::InvalidAmount),
        amount_in == 0 ==> swap_result(pool, amount_in, min_amount_out, false, reserve_a, reserve_b)
            == Err::<SwapOutcome, ErrorCode>(ErrorCode::InvalidAmount),
        amount_in > 0 ==> (swap_result(pool, amount_in, min_amount_out, true, reserve_a, reserve_b)
            is Ok <==> reserve_b - (reserve_a * reserve_b) / (reserve_a + amount_in - amount_in
            * pool.fee_numerator / (pool.fee_denominator as int)) >= min_amount_out),
        amount_in > 0 ==> (swap_result(pool, amount_in, min_amount_out, false, reserve_a, reserve_b)
            is Ok <==> reserve_a - (reserve_b * reserve_a) / (reserve_b + amount_in - amount_in
            * pool.fee_numerator / (pool.fee_denominator as int)) >= min_amount_out),
        amount_in > 0 ==> (swap_result(pool, amount_in, min_amount_out, true, reserve_a, reserve_b)
            is Err ==> swap_result(pool, amount_in, min_amount_out, true, reserve_a, reserve_b)
            == Err::<SwapOutcome, ErrorCode>(ErrorCode::SlippageExceeded)),
        amount_in > 0 ==> (swap_result(pool, amount_in, min_amount_out, false, reserve_a, reserve_b)
            is Err ==> swap_result(pool, amount_in, min_amount_out, false, reserve_a, reserve_b)
            == Err::<SwapOutcome, ErrorCode>(ErrorCode::SlippageExceeded)),
{
    if amount_in > 0 {
        lemma_swap_arithmetic(pool, amount_in, true, reserve_a, reserve_b);
        lemma_swap_arithmetic(pool, amount_in, false, reserve_a, reserve_b);
        assert(reserve_b * reserve_a == reserve_a * reserve_b) by (nonlinear_arith);
    }
}

/// Burning `lp_amount` of at most the whole supply pays each token's pro-rata
/// share, rounded down, and is refused for slippage exactly when a payout is
/// below its own minimum.
pub proof fn lemma_withdrawal_checks_each_minimum(
    lp_amount: u64,
    min_amount_a: u64,
    min_amount_b: u64,
    reserve_a: u64,
    reserve_b: u64,
    lp_supply: u64,
)
    requires
        lp_amount <= lp_supply,
    ensures
        lp_amount == 0 ==> remove_liquidity_result(
            lp_amount,
            min_amount_a,
            min_amount_b,
            reserve_a,
            reserve_b,
            lp_supply,
        ) == Err::<Withdrawal, ErrorCode>(ErrorCode::InvalidAmount),
        lp_amount > 0 ==> (remove_liquidity_result(
            lp_amount,
            min_amount_a,
            min_amount_b,
            reserve_a,
            reserve_b,
            lp_supply,
        ) is Ok <==> (lp_amount * reserve_a / (lp_supply as int) >= min_amount_a && lp_amount
            * reserve_b / (lp_supply as int) >= min_amount_b)),
        remove_liquidity_result(lp_amount, min_amount_a, min_amount_b, reserve_a, reserve_b, lp_supply)
            matches Ok(w) ==> {
            &&& w.amount_a * lp_supply <= lp_amount * reserve_a < (w.amount_a + 1) * lp_supply
            &&& w.amount_b * lp_supply <= lp_amount * reserve_b < (w.amount_b + 1) * lp_supply
        },
        lp_amount > 0 && !(remove_liquidity_result(
            lp_amount,
            min_amount_a,
            min_amount_b,
            reserve_a,
            reserve_b,
            lp_supply,
        ) is Ok) ==> remove_liquidity_result(
            lp_amount,
            min_amount_a,
            min_amount_b,
            reserve_a,
            reserve_b,
            lp_supply,
        ) == Err::<Withdrawal, ErrorCode>(ErrorCode::SlippageExceeded),
{
    if lp_amount > 0 {
        lemma_pro_rata_share(lp_amount, reserve_a, lp_supply);
        lemma_pro_rata_share(lp_amount, reserve_b, lp_supply);
    }
}

/// `part * whole / total` for `part <= total` fits in 64 bits and is the
/// rounded-down share.
proof fn lemma_pro_rata_share(part: u64, whole: u64, total: u64)
    requires
        0 < part <= total,
    ensures
        mul_div_u64(part, whole, total) == part * whole / (total as int),
        mul_div_u64(part, whole, total) * total <= part * whole < (mul_div_u64(part, whole, total)
            + 1) * total,
{
    lemma_scale_down_le(part as int, whole as int, total as int);
    let q = part * whole / (total as int);
    vstd::arithmetic::div_mod::lemma_fundamental_div_mod(part * whole, total as int);
    vstd::arithmetic::div_mod::lemma_mod_bound(part * whole, total as int);
    assert(q * total <= part * whole < (q + 1) * total) by (nonlinear_arith)
        requires
            part * whole == total * q + (part * whole) % (total as int),
            0 <= (part * whole) % (total as int) < total,
    ;
}

/// Into a funded pool, a deposit mints the largest number of LP tokens whose
/// share of either reserve is covered by the deposit of that token: at most
/// each token's pro-rata share of the supply, rounded down, and no fewer than
/// the smaller of the two. It is refused exactly when an amount is zero or the
/// minted tokens are below the caller's minimum. A first deposit mints the
/// given square root.
pub proof fn lemma_deposit_mints_share(
    amount_a: u64,
    amount_b: u64,
    min_lp_tokens: u64,
    reserve_a: u64,
    reserve_b: u64,
    lp_supply: u64,
    geometric_mean: u64,
)
    requires
        lp_supply > 0 ==> reserve_a > 0 && reserve_b > 0,
        lp_supply > 0 ==> amount_a * lp_supply / (reserve_a as int) <= u64::MAX,
        lp_supply > 0 ==> amount_b * lp_supply / (reserve_b as int) <= u64::MAX,
    ensures
        amount_a == 0 || amount_b == 0 ==> add_liquidity_result(
            amount_a,
            amount_b,
            min_lp_tokens,
            reserve_a,
            reserve_b,
            lp_supply,
            geometric_mean,
        ) == Err::<u64, ErrorCode>(ErrorCode::InvalidAmount),
        amount_a > 0 && amount_b > 0 && lp_supply == 0 ==> add_liquidity_result(
            amount_a,
            amount_b,
            min_lp_tokens,
            reserve_a,
            reserve_b,
            lp_supply,
            geometric_mean,
        ) == if geometric_mean >= min_lp_tokens {
            Ok::<u64, ErrorCode>(geometric_mean)
        } else {
            Err(ErrorCode::SlippageExceeded)
        },
        amount_a > 0 && amount_b > 0 && lp_supply > 0 ==> match add_liquidity_result(
            amount_a,
            amount_b,
            min_lp_tokens,
            reserve_a,
            reserve_b,
            lp_supply,
            geometric_mean,
        ) {
            Ok(lp) => {
                &&& lp >= min_lp_tokens
                &&& lp * reserve_a <= amount_a * lp_supply
                &&& lp * reserve_b <= amount_b * lp_supply
                &&& (amount_a * lp_supply < (lp + 1) * reserve_a || amount_b * lp_supply < (lp + 1)
                    * reserve_b)
            },
            Err(e) => {
                &&& e == ErrorCode::SlippageExceeded
                &&& (amount_a * lp_supply < min_lp_tokens * reserve_a || amount_b * lp_supply
                    < min_lp_tokens * reserve_b)
            },
        },
{
    if amount_a > 0 && amount_b > 0 && lp_supply > 0 {
        lemma_share_bounds(amount_a, lp_supply, reserve_a);
        lemma_share_bounds(amount_b, lp_supply, reserve_b);
        let fa = mul_div_u64(amount_a, lp_supply, reserve_a);
        let fb = mul_div_u64(amount_b, lp_supply, reserve_b);
        let lp = if fa <= fb {
            fa
        } else {
            fb
        };
        assert(lp * reserve_a <= fa * reserve_a) by (nonlinear_arith)
            requires
                lp <= fa,
                reserve_a > 0,
        ;
        assert(lp * reserve_b <= fb * reserve_b) by (nonlinear_arith)
            requires
                lp <= fb,
                reserve_b > 0,
        ;
        if fa < min_lp_tokens {
            assert(amount_a * lp_supply < min_lp_tokens * reserve_a) by (nonlinear_arith)
                requires
                    amount_a * lp_supply < (fa + 1) * reserve_a,
                    fa + 1 <= min_lp_tokens,
                    reserve_a > 0,
            ;
        }
        if fb < min_lp_tokens {
            assert(amount_b * lp_supply < min_lp_tokens * reserve_b) by (nonlinear_arith)
                requires
                    amount_b * lp_supply < (fb + 1) * reserve_b,
                    fb + 1 <= min_lp_tokens,
                    reserve_b > 0,
            ;
        }
    }
}

/// `amount * supply / reserve`, when it fits in 64 bits, is the rounded-down
/// share.
proof fn lemma_share_bounds(amount: u64, supply: u64, reserve: u64)
    requires
        reserve > 0,
        amount * supply / (reserve as int) <= u64::MAX,
    ensures
        mul_div_u64(amount, supply, reserve) == amount * supply / (reserve as int),
        mul_div_u64(amount, supply, reserve) * reserve <= amount * supply < (mul_div_u64(
            amount,
            supply,
            reserve,
        ) + 1) * reserve,
{
    assert(0 <= amount * supply) by (nonlinear_arith);
    vstd::arithmetic::div_mod::lemma_div_pos_is_pos(amount * supply, reserve as int);
    let q = amount * supply / (reserve as int);
    vstd::arithmetic::div_mod::lemma_fundamental_div_mod(amount * supply, reserve as int);
    vstd::arithmetic::div_mod::lemma_mod_bound(amount * supply, reserve as int);
    assert(q * reserve <= amount * supply < (q + 1) * reserve) by (nonlinear_arith)
        requires
            amount * supply == reserve * q + (amount * supply) % (reserve as int),
            0 <= (amount * supply) % (reserve as int) < reserve,
    ;
}

/// A pool is created exactly when its fee is below 100%, and then holds the
/// given accounts and fee.
pub proof fn lemma_pool_creation(keys: PoolKeys, fee_numerator: u64, fee_denominator: u64, bump: u8)
    ensures
        initialize_pool_result(keys, fee_numerator, fee_denominator, bump) is Ok <==> fee_numerator
            < fee_denominator,
        initialize_pool_result(keys, fee_numerator, fee_denominator, bump) is Err
            ==> initialize_pool_result(keys, fee_numerator, fee_denominator, bump) == Err::<
            Pool,
            ErrorCode,
        >(ErrorCode::InvalidFee),
        initialize_pool_result(keys, fee_numerator, fee_denominator, bump) matches Ok(pool) ==> {
            &&& pool.token_a_mint == keys.token_a_mint
            &&& pool.token_b_mint == keys.token_b_mint
            &&& pool.token_a_account == keys.token_a_account
            &&& pool.token_b_account == keys.token_b_account
            &&& pool.lp_mint == keys.lp_mint
            &&& pool.authority == keys.authority
            &&& pool.fee_numerator == fee_numerator
            &&& pool.fee_denominator == fee_denominator
            &&& pool.bump == bump
        },
{
}

} // verus!
