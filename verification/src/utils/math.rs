use vstd::prelude::*;
use vstd::arithmetic::div_mod::{
    lemma_div_is_ordered, lemma_div_by_multiple, lemma_fundamental_div_mod,
    lemma_div_pos_is_pos,
};
use vstd::arithmetic::power::{pow, lemma_pow_increases, lemma_pow_positive};
use crate::errors::StripVaultError;
use crate::state::vault::PayoutAssetType;

verus! {

/// Scaling factor for fixed-point multiplier representation (9 decimals of precision)
pub const MULTIPLIER_PRECISION: u64 = 1_000_000_000;

/// Basis points that make up one whole payout (100.00%).
pub const BPS_DENOMINATOR: u64 = 10_000;

/// Default deterministic simulated oracle exchange rate:
/// 1.00 stock share = 150.00 USDC (6 decimals: 150_000_000)
pub const DEFAULT_USDC_SWAP_RATE: u64 = 150_000_000;

/// Default deterministic simulated oracle exchange rate:
/// 1.00 stock share = 1.20 SOL (9 decimals: 1_200_000_000 lamports)
pub const DEFAULT_SOL_SWAP_RATE: u64 = 1_200_000_000;

/// Raw tokens that carry the value a multiplier rise from `old` to `new` added to `bal` raw tokens:
/// `bal * (new - old) / new`, rounded down.
pub open spec fn harvest_amount(bal: int, old: int, new: int) -> int {
    bal * (new - old) / new
}

/// What `calculate_harvest_amount` returns for every input.
pub open spec fn harvest_result(bal: u64, old: u64, new: u64) -> Result<u64, StripVaultError> {
    if old == 0 || new == 0 {
        Err(StripVaultError::InvalidMultiplier)
    } else if new <= old {
        Err(StripVaultError::NoDividendDelta)
    } else {
        Ok(harvest_amount(bal as int, old as int, new as int) as u64)
    }
}

/// A share of `total` worth `bps` basis points, rounded down.
pub open spec fn yield_share(total: int, bps: int) -> int {
    total * bps / (BPS_DENOMINATOR as int)
}

/// What `calculate_yield_share` returns for every input.
pub open spec fn yield_share_result(total: u64, bps: u16) -> Result<u64, StripVaultError> {
    if bps > BPS_DENOMINATOR {
        Err(StripVaultError::ExceedsMaxYieldAllocation)
    } else {
        Ok(yield_share(total as int, bps as int) as u64)
    }
}

/// The exchange rate a simulated swap uses: the custom rate where one is given,
/// else the default rate of the payout asset.
pub open spec fn swap_rate(asset: PayoutAssetType, custom_rate: Option<u64>) -> u64 {
    match custom_rate {
        Some(r) => r,
        None => match asset {
            PayoutAssetType::Usdc => DEFAULT_USDC_SWAP_RATE,
            PayoutAssetType::Sol => DEFAULT_SOL_SWAP_RATE,
        },
    }
}

/// What `calculate_simulated_swap_output` returns for every input:
/// `stock_amount * rate / 10^stock_decimals`, computed in 128 bits.
pub open spec fn swap_output_result(
    stock_amount: u64,
    stock_decimals: u8,
    asset: PayoutAssetType,
    custom_rate: Option<u64>,
) -> Result<u64, StripVaultError> {
    let out = stock_amount * swap_rate(asset, custom_rate) / pow(10, stock_decimals as nat);
    if stock_amount == 0 {
        Ok(0)
    } else if custom_rate == Some(0u64) {
        Err(StripVaultError::InvalidMultiplier)
    } else if pow(10, stock_decimals as nat) > u128::MAX {
        Err(StripVaultError::MathOverflow)
    } else if out > u64::MAX {
        Err(StripVaultError::MathOverflow)
    } else {
        Ok(out as u64)
    }
}

/// The division behind a harvest, with its remainder: `(bal - h) * new == bal * old + r`.
pub proof fn lemma_harvest_remainder(bal: int, old: int, new: int)
    requires
        bal >= 0,
        0 < old < new,
    ensures
        0 <= harvest_amount(bal, old, new) <= bal,
        bal * old <= (bal - harvest_amount(bal, old, new)) * new,
        (bal - harvest_amount(bal, old, new)) * new < bal * old + new,
{
    let h = harvest_amount(bal, old, new);
    let n = bal * (new - old);
    assert(n >= 0) by (nonlinear_arith)
        requires bal >= 0, new > old, n == bal * (new - old);
    lemma_fundamental_div_mod(n, new);
    let r = n % new;
    assert(n == new * h + r);
    lemma_div_pos_is_pos(n, new);
    assert(n <= bal * new) by (nonlinear_arith)
        requires bal >= 0, 0 < old < new, n == bal * (new - old);
    lemma_div_is_ordered(n, bal * new, new);
    lemma_div_by_multiple(bal, new);
    assert(h <= bal);
    assert((bal - h) * new == bal * new - h * new) by (nonlinear_arith);
    assert(n == bal * new - bal * old) by (nonlinear_arith)
        requires n == bal * (new - old);
    assert((bal - h) * new == bal * old + r) by (nonlinear_arith)
        requires n == new * h + r, n == bal * new - bal * old, (bal - h) * new == bal * new - h * new;
}

/// Calculates the exact raw token amount to harvest from a multiplier delta without
/// diluting principal equity value:
/// `Raw to Harvest = Current Raw Balance * (New Multiplier - Old Multiplier) / New Multiplier`.
///
/// The raw tokens left behind are worth, at the new multiplier, what the whole balance was
/// worth at the old one: never less, and less than one raw unit (times the multiplier) more.
pub fn calculate_harvest_amount(
    current_raw_balance: u64,
    old_multiplier: u64,
    new_multiplier: u64,
) -> (r: Result<u64, StripVaultError>)
    ensures
        r == harvest_result(current_raw_balance, old_multiplier, new_multiplier),
        r matches Ok(h) ==> {
            &&& h <= current_raw_balance
            &&& current_raw_balance * old_multiplier <= (current_raw_balance - h) * new_multiplier
            &&& (current_raw_balance - h) * new_multiplier
                < current_raw_balance * old_multiplier + new_multiplier
        },
{
    if old_multiplier == 0 || new_multiplier == 0 {
        return Err(StripVaultError::InvalidMultiplier);
    }
    if new_multiplier <= old_multiplier {
        return Err(StripVaultError::NoDividendDelta);
    }
    proof {
        lemma_harvest_remainder(current_raw_balance as int, old_multiplier as int, new_multiplier as int);
    }
    if current_raw_balance == 0 {
        assert(harvest_amount(0, old_multiplier as int, new_multiplier as int) == 0);
        return Ok(0);
    }
    let delta_multiplier = new_multiplier - old_multiplier;
    let bal = current_raw_balance as u128;
    let delta = delta_multiplier as u128;
    assert(bal * delta <= u64::MAX * u64::MAX) by (nonlinear_arith)
        requires bal <= u64::MAX, delta <= u64::MAX;
    let numerator = match bal.checked_mul(delta) {
        Some(n) => n,
        None => return Err(StripVaultError::MathOverflow),
    };
    let harvest = match numerator.checked_div(new_multiplier as u128) {
        Some(h) => h,
        None => return Err(StripVaultError::MathOverflow),
    };
    assert(harvest == harvest_amount(current_raw_balance as int, old_multiplier as int, new_multiplier as int));
    if harvest > u64::MAX as u128 {
        return Err(StripVaultError::MathOverflow);
    }
    Ok(harvest as u64)
}

/// Calculates a yield recipient's share of a payout given their allocation in basis points
/// (100 bps = 1.00%): `total * bps / 10_000`, rounded down; more than 10,000 bps is refused.
pub fn calculate_yield_share(total_payout_amount: u64, share_bps: u16) -> (r: Result<u64, StripVaultError>)
    ensures
        r == yield_share_result(total_payout_amount, share_bps),
        r matches Ok(s) ==> s <= total_payout_amount,
{
    if share_bps > 10_000 {
        return Err(StripVaultError::ExceedsMaxYieldAllocation);
    }
    proof {
        lemma_share_bounded(total_payout_amount as int, share_bps as int);
    }
    if total_payout_amount == 0 || share_bps == 0 {
        assert(yield_share(total_payout_amount as int, share_bps as int) == 0) by (nonlinear_arith)
            requires total_payout_amount == 0 || share_bps == 0;
        return Ok(0);
    }
    let total = total_payout_amount as u128;
    let bps = share_bps as u128;
    assert(total * bps <= u64::MAX * 10_000) by (nonlinear_arith)
        requires total <= u64::MAX, bps <= 10_000;
    let product = match total.checked_mul(bps) {
        Some(p) => p,
        None => return Err(StripVaultError::MathOverflow),
    };
    let share = match product.checked_div(10_000) {
        Some(s) => s,
        None => return Err(StripVaultError::MathOverflow),
    };
    if share > u64::MAX as u128 {
        return Err(StripVaultError::MathOverflow);
    }
    Ok(share as u64)
}

/// A share of at most 10,000 bps is at most the whole.
pub proof fn lemma_share_bounded(total: int, bps: int)
    requires
        total >= 0,
        0 <= bps <= 10_000,
    ensures
        0 <= yield_share(total, bps) <= total,
{
    assert(total * bps <= total * 10_000) by (nonlinear_arith)
        requires total >= 0, 0 <= bps <= 10_000;
    assert(total * bps >= 0) by (nonlinear_arith)
        requires total >= 0, bps >= 0;
    lemma_div_is_ordered(total * bps, total * 10_000, 10_000);
    lemma_div_by_multiple(total, 10_000);
    lemma_div_pos_is_pos(total * bps, 10_000);
}

/// `10^e`, or `None` where it does not fit in 128 bits.
fn checked_pow10(e: u8) -> (r: Option<u128>)
    ensures
        r matches Some(p) ==> p == pow(10, e as nat),
        r is None ==> pow(10, e as nat) > u128::MAX,
{
    let mut p: u128 = 1;
    let mut i: u8 = 0;
    proof {
        reveal(pow);
    }
    while i < e
        invariant
            i <= e,
            p == pow(10, i as nat),
        decreases e - i,
    {
        proof {
            reveal(pow);
            assert(pow(10, (i + 1) as nat) == 10 * pow(10, i as nat));
        }
        match p.checked_mul(10) {
            Some(q) => {
                p = q;
            },
            None => {
                proof {
                    lemma_pow_increases(10, (i + 1) as nat, e as nat);
                }
                return None;
            },
        }
        i = i + 1;
    }
    Some(p)
}

/// Calculates the swap output for a given raw stock amount based on the oracle rate:
/// `stock_amount * rate / 10^stock_decimals`, where the rate is the custom one if given,
/// else the payout asset's default.
pub fn calculate_simulated_swap_output(
    stock_amount: u64,
    stock_decimals: u8,
    payout_asset_type: PayoutAssetType,
    custom_rate: Option<u64>,
) -> (r: Result<u64, StripVaultError>)
    ensures
        r == swap_output_result(stock_amount, stock_decimals, payout_asset_type, custom_rate),
{
    if stock_amount == 0 {
        return Ok(0);
    }
    let rate = match custom_rate {
        Some(r) => {
            if r == 0 {
                return Err(StripVaultError::InvalidMultiplier);
            }
            r
        },
        None => match payout_asset_type {
            PayoutAssetType::Usdc => DEFAULT_USDC_SWAP_RATE,
            PayoutAssetType::Sol => DEFAULT_SOL_SWAP_RATE,
        },
    };
    let scale_factor = match checked_pow10(stock_decimals) {
        Some(s) => s,
        None => return Err(StripVaultError::MathOverflow),
    };
    proof {
        lemma_pow_positive(10, stock_decimals as nat);
    }
    let amount = stock_amount as u128;
    let rate_wide = rate as u128;
    assert(amount * rate_wide <= u64::MAX * u64::MAX) by (nonlinear_arith)
        requires amount <= u64::MAX, rate_wide <= u64::MAX;
    let numerator = match amount.checked_mul(rate_wide) {
        Some(n) => n,
        None => return Err(StripVaultError::MathOverflow),
    };
    let output = match numerator.checked_div(scale_factor) {
        Some(o) => o,
        None => return Err(StripVaultError::MathOverflow),
    };
    if output > u64::MAX as u128 {
        return Err(StripVaultError::MathOverflow);
    }
    Ok(output as u64)
}

/// The sum of a sequence of basis-point allocations.
pub open spec fn bps_sum(s: Seq<u16>) -> int
    decreases s.len(),
{
    if s.len() == 0 {
        0
    } else {
        bps_sum(s.drop_last()) + s.last()
    }
}

/// The sum of the shares of `total` that the allocations in `s` receive.
pub open spec fn shares_sum(total: int, s: Seq<u16>) -> int
    decreases s.len(),
{
    if s.len() == 0 {
        0
    } else {
        shares_sum(total, s.drop_last()) + yield_share(total, s.last() as int)
    }
}

/// Splitting a payout by allocations that add up to at most 100% never pays out more than the
/// payout: the rounded-down shares add up to at most the share of the combined allocation.
pub proof fn lemma_shares_fit_payout(total: int, s: Seq<u16>)
    requires
        total >= 0,
        bps_sum(s) <= BPS_DENOMINATOR,
    ensures
        shares_sum(total, s) <= yield_share(total, bps_sum(s)),
        yield_share(total, bps_sum(s)) <= total,
    decreases s.len(),
{
    lemma_bps_sum_nonneg(s);
    if s.len() > 0 {
        let rest = s.drop_last();
        lemma_bps_sum_nonneg(rest);
        lemma_shares_fit_payout(total, rest);
        let a = bps_sum(rest);
        let b = s.last() as int;
        lemma_floor_add(total * a, total * b, 10_000);
        assert(total * a + total * b == total * (a + b)) by (nonlinear_arith);
    }
    lemma_share_bounded(total, bps_sum(s));
}

proof fn lemma_bps_sum_nonneg(s: Seq<u16>)
    ensures
        bps_sum(s) >= 0,
    decreases s.len(),
{
    if s.len() > 0 {
        lemma_bps_sum_nonneg(s.drop_last());
    }
}

/// Rounding down two quotients separately loses at least as much as rounding their sum.
proof fn lemma_floor_add(x: int, y: int, d: int)
    requires
        d > 0,
    ensures
        x / d + y / d <= (x + y) / d,
{
    lemma_fundamental_div_mod(x, d);
    lemma_fundamental_div_mod(y, d);
    lemma_fundamental_div_mod(x + y, d);
    let qx = x / d;
    let qy = y / d;
    let q = (x + y) / d;
    assert(x + y == d * (qx + qy) + (x % d + y % d)) by (nonlinear_arith)
        requires x == d * qx + x % d, y == d * qy + y % d;
    assert(qx + qy <= q) by (nonlinear_arith)
        requires
            x + y == d * (qx + qy) + (x % d + y % d),
            x + y == d * q + (x + y) % d,
            0 <= x % d < d,
            0 <= y % d < d,
            0 <= (x + y) % d < d,
            d > 0;
}

} // verus!
