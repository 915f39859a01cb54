use vstd::prelude::*;

use crate::errors::VaultError;

verus! {

/// Fixed-point scale of the exchange rate. A rate equal to the scale means
/// one deposit unit per share unit; the scale is never configurable, since
/// changing it would reinterpret every stored rate.
pub const EXCHANGE_RATE_SCALE: u64 = 1_000_000;

/// Shares minted for a deposit: `floor(deposit_amount * SCALE / exchange_rate)`.
pub open spec fn shares_of(deposit_amount: int, exchange_rate: int) -> int
    recommends
        exchange_rate > 0,
{
    deposit_amount * (EXCHANGE_RATE_SCALE as int) / exchange_rate
}

/// Deposit units paid for shares: `floor(share_amount * exchange_rate / SCALE)`.
pub open spec fn deposit_value_of(share_amount: int, exchange_rate: int) -> int {
    share_amount * exchange_rate / (EXCHANGE_RATE_SCALE as int)
}

/// The full outcome of converting a deposit into shares: the scaled product
/// must fit in 64 bits before the division, and a conversion that would mint
/// nothing is rejected rather than silently accepted.
pub open spec fn shares_conversion(deposit_amount: u64, exchange_rate: u64) -> Result<u64, VaultError> {
    if exchange_rate == 0 {
        Err(VaultError::InvalidExchangeRate)
    } else if deposit_amount * EXCHANGE_RATE_SCALE > u64::MAX {
        Err(VaultError::MathOverflow)
    } else if shares_of(deposit_amount as int, exchange_rate as int) == 0 {
        Err(VaultError::InvalidAmount)
    } else {
        Ok(shares_of(deposit_amount as int, exchange_rate as int) as u64)
    }
}

/// The full outcome of converting shares back into deposit units, with the
/// same overflow and zero-result rejections. A zero rate yields a zero value
/// and is therefore rejected as `InvalidAmount`.
pub open spec fn deposit_conversion(share_amount: u64, exchange_rate: u64) -> Result<u64, VaultError> {
    if share_amount * exchange_rate > u64::MAX {
        Err(VaultError::MathOverflow)
    } else if deposit_value_of(share_amount as int, exchange_rate as int) == 0 {
        Err(VaultError::InvalidAmount)
    } else {
        Ok(deposit_value_of(share_amount as int, exchange_rate as int) as u64)
    }
}

/// How many shares a deposit of `deposit_amount` mints at `exchange_rate`.
/// Multiplies before dividing, in widened arithmetic, so precision is only
/// lost in the final floor.
pub fn shares_for_deposit(deposit_amount: u64, exchange_rate: u64) -> (r: Result<u64, VaultError>)
    ensures
        r == shares_conversion(deposit_amount, exchange_rate),
{
    if exchange_rate == 0 {
        return Err(VaultError::InvalidExchangeRate);
    }
    proof {
        assert((deposit_amount as int) * (EXCHANGE_RATE_SCALE as int) <= (u64::MAX as int) * (u64::MAX as int))
            by (nonlinear_arith)
            requires
                deposit_amount <= u64::MAX,
                EXCHANGE_RATE_SCALE <= u64::MAX,
        ;
    }
    let scaled: u128 = (deposit_amount as u128) * (EXCHANGE_RATE_SCALE as u128);
    if scaled > (u64::MAX as u128) {
        return Err(VaultError::MathOverflow);
    }
    let shares: u128 = scaled / (exchange_rate as u128);
    proof {
        vstd::arithmetic::div_mod::lemma_div_nonincreasing(scaled as int, exchange_rate as int);
    }
    if shares == 0 {
        Err(VaultError::InvalidAmount)
    } else {
        Ok(shares as u64)
    }
}

/// How many deposit units `share_amount` shares redeem for at
/// `exchange_rate`. Multiplies before dividing, in widened arithmetic.
pub fn deposit_for_shares(share_amount: u64, exchange_rate: u64) -> (r: Result<u64, VaultError>)
    ensures
        r == deposit_conversion(share_amount, exchange_rate),
{
    proof {
        assert((share_amount as int) * (exchange_rate as int) <= (u64::MAX as int) * (u64::MAX as int))
            by (nonlinear_arith)
            requires
                share_amount <= u64::MAX,
                exchange_rate <= u64::MAX,
        ;
    }
    let scaled: u128 = (share_amount as u128) * (exchange_rate as u128);
    if scaled > (u64::MAX as u128) {
        return Err(VaultError::MathOverflow);
    }
    let value: u128 = scaled / (EXCHANGE_RATE_SCALE as u128);
    proof {
        vstd::arithmetic::div_mod::lemma_div_nonincreasing(scaled as int, EXCHANGE_RATE_SCALE as int);
    }
    if value == 0 {
        Err(VaultError::InvalidAmount)
    } else {
        Ok(value as u64)
    }
}

/// Law: converting a deposit to shares and back at one unchanged positive
/// rate never pays out more than the deposit went in; floor rounding can
/// only lose value, never create it.
pub proof fn lemma_round_trip_non_expanding(deposit_amount: int, exchange_rate: int)
    requires
        0 <= deposit_amount,
        0 < exchange_rate,
    ensures
        deposit_value_of(shares_of(deposit_amount, exchange_rate), exchange_rate)
            <= deposit_amount,
{
    let k: int = EXCHANGE_RATE_SCALE as int;
    let n: int = deposit_amount * k;
    let s: int = n / exchange_rate;
    assert(0 <= n) by (nonlinear_arith)
        requires
            0 <= deposit_amount,
            n == deposit_amount * k,
            0 < k,
    ;
    vstd::arithmetic::div_mod::lemma_fundamental_div_mod(n, exchange_rate);
    vstd::arithmetic::div_mod::lemma_mod_bound(n, exchange_rate);
    assert(s * exchange_rate <= n) by (nonlinear_arith)
        requires
            n == exchange_rate * s + n % exchange_rate,
            0 <= n % exchange_rate,
    ;
    vstd::arithmetic::div_mod::lemma_div_is_ordered(s * exchange_rate, n, k);
    assert(n == k * deposit_amount) by (nonlinear_arith)
        requires
            n == deposit_amount * k,
    ;
    vstd::arithmetic::div_mod::lemma_div_multiples_vanish(deposit_amount, k);
}

/// Law: at a fixed share amount, the redemption value never decreases when
/// the exchange rate increases.
pub proof fn lemma_deposit_value_monotonic(share_amount: int, rate_low: int, rate_high: int)
    requires
        0 <= share_amount,
        0 < rate_low <= rate_high,
    ensures
        deposit_value_of(share_amount, rate_low) <= deposit_value_of(share_amount, rate_high),
{
    let k: int = EXCHANGE_RATE_SCALE as int;
    assert(share_amount * rate_low <= share_amount * rate_high) by (nonlinear_arith)
        requires
            0 <= share_amount,
            rate_low <= rate_high,
    ;
    vstd::arithmetic::div_mod::lemma_div_is_ordered(
        share_amount * rate_low,
        share_amount * rate_high,
        k,
    );
}

/// Law: a rate increase strictly increases the redemption value of a
/// positive share amount, provided the scaled gain
/// `share_amount * (rate_high - rate_low)` reaches one whole scale unit;
/// below that the floor can swallow the difference.
pub proof fn lemma_deposit_value_strictly_increases(
    share_amount: int,
    rate_low: int,
    rate_high: int,
)
    requires
        0 < share_amount,
        0 < rate_low < rate_high,
        share_amount * (rate_high - rate_low) >= EXCHANGE_RATE_SCALE,
    ensures
        deposit_value_of(share_amount, rate_low) < deposit_value_of(share_amount, rate_high),
{
    let k: int = EXCHANGE_RATE_SCALE as int;
    let a1: int = share_amount * rate_low;
    let a2: int = share_amount * rate_high;
    assert(a1 + k <= a2) by (nonlinear_arith)
        requires
            a1 == share_amount * rate_low,
            a2 == share_amount * rate_high,
            share_amount * (rate_high - rate_low) >= k,
    ;
    vstd::arithmetic::div_mod::lemma_div_plus_one(a1, k);
    vstd::arithmetic::div_mod::lemma_div_is_ordered(k + a1, a2, k);
}

/// Law: at a fixed deposit, the shares minted never increase when the
/// exchange rate increases.
pub proof fn lemma_shares_monotonic(deposit_amount: int, rate_low: int, rate_high: int)
    requires
        0 <= deposit_amount,
        0 < rate_low <= rate_high,
    ensures
        shares_of(deposit_amount, rate_high) <= shares_of(deposit_amount, rate_low),
{
    let k: int = EXCHANGE_RATE_SCALE as int;
    assert(0 <= deposit_amount * k) by (nonlinear_arith)
        requires
            0 <= deposit_amount,
            0 < k,
    ;
    vstd::arithmetic::div_mod::lemma_div_is_ordered_by_denominator(
        deposit_amount * k,
        rate_low,
        rate_high,
    );
}

/// Law: a rate increase strictly decreases the shares minted for a positive
/// deposit, provided the scaled deposit can still separate the two rates:
/// `deposit_amount * SCALE * (rate_high - rate_low) >= rate_low * rate_high`.
/// A deposit small enough to floor to the same quotient at both rates is
/// excluded.
pub proof fn lemma_shares_strictly_decrease(deposit_amount: int, rate_low: int, rate_high: int)
    requires
        0 < deposit_amount,
        0 < rate_low < rate_high,
        deposit_amount * (EXCHANGE_RATE_SCALE as int) * (rate_high - rate_low) >= rate_low
            * rate_high,
    ensures
        shares_of(deposit_amount, rate_high) < shares_of(deposit_amount, rate_low),
{
    let k: int = EXCHANGE_RATE_SCALE as int;
    let n: int = deposit_amount * k;
    let q2: int = n / rate_high;
    assert(0 < n) by (nonlinear_arith)
        requires
            0 < deposit_amount,
            n == deposit_amount * k,
            0 < k,
    ;
    vstd::arithmetic::div_mod::lemma_div_pos_is_pos(n, rate_high);
    vstd::arithmetic::div_mod::lemma_fundamental_div_mod(n, rate_high);
    vstd::arithmetic::div_mod::lemma_mod_bound(n, rate_high);
    assert(rate_low * (q2 + 1) <= n) by (nonlinear_arith)
        requires
            0 < rate_low < rate_high,
            0 <= q2,
            rate_high * q2 <= n,
            n * (rate_high - rate_low) >= rate_low * rate_high,
    ;
    vstd::arithmetic::div_mod::lemma_div_is_ordered(rate_low * (q2 + 1), n, rate_low);
    vstd::arithmetic::div_mod::lemma_div_multiples_vanish(q2 + 1, rate_low);
}

} // verus!
