use vstd::prelude::*;
use crate::errors::StripVaultError;
use crate::events::DividendHarvestedEvent;
use crate::state::vault::Vault;
use crate::utils::math::{calculate_harvest_amount, harvest_amount, lemma_harvest_remainder};

verus! {

/// The accounts of a harvest, by address, with the state the decision reads.
#[derive(Clone, Copy, Debug)]
pub struct KeeperHarvestDividend {
    /// The vault PDA
    pub vault_key: [u8; 32],
    pub vault: Vault,
    /// Raw balance of the vault's stock account
    pub stock_vault_amount: u64,
}

/// What a harvest decides for every input.
pub open spec fn harvest_dividend_result(
    ctx: KeeperHarvestDividend,
    multiplier_reading: Result<u64, StripVaultError>,
) -> Result<(Vault, DividendHarvestedEvent), StripVaultError> {
    let old = ctx.vault.last_multiplier;
    let bal = ctx.stock_vault_amount;
    match multiplier_reading {
        Err(e) => Err(e),
        Ok(active) => if active <= old {
            Err(StripVaultError::NoDividendDelta)
        } else if old == 0 {
            Err(StripVaultError::InvalidMultiplier)
        } else {
            let h = harvest_amount(bal as int, old as int, active as int);
            if h == 0 {
                Err(StripVaultError::NoDividendDelta)
            } else if ctx.vault.pending_harvest_amount + h > u64::MAX {
                Err(StripVaultError::MathOverflow)
            } else {
                Ok(
                    (
                        Vault {
                            last_multiplier: active,
                            pending_harvest_amount: (ctx.vault.pending_harvest_amount + h) as u64,
                            total_raw_shares: (bal - h) as u64,
                            ..ctx.vault
                        },
                        DividendHarvestedEvent {
                            vault: ctx.vault_key,
                            old_multiplier: old,
                            new_multiplier: active,
                            harvested_tokens: h as u64,
                        },
                    ),
                )
            }
        },
    }
}

/// Decides a harvest: once the multiplier active now (`multiplier_reading`, read from the stock
/// mint, or why it could not be read) exceeds the vault's last one, the raw tokens that carry the
/// rise are moved out of the vault's stock account. On success the caller transfers
/// `harvested_tokens` from the vault's stock account to the pending distribution account, stores
/// the vault and emits the event. What stays behind keeps, at the new multiplier, the value the
/// whole balance had at the old one.
pub fn handler(
    ctx: &KeeperHarvestDividend,
    multiplier_reading: Result<u64, StripVaultError>,
) -> (r: Result<(Vault, DividendHarvestedEvent), StripVaultError>)
    ensures
        r == harvest_dividend_result(*ctx, multiplier_reading),
        r matches Ok((v, e)) ==> {
            &&& v.total_raw_shares + e.harvested_tokens == ctx.stock_vault_amount
            &&& v.pending_harvest_amount == ctx.vault.pending_harvest_amount + e.harvested_tokens
            &&& ctx.stock_vault_amount * e.old_multiplier <= v.total_raw_shares * e.new_multiplier
            &&& v.total_raw_shares * e.new_multiplier < ctx.stock_vault_amount * e.old_multiplier
                + e.new_multiplier
            &&& v.total_yield_allocated_bps == ctx.vault.total_yield_allocated_bps
        },
{
    let active_multiplier = match multiplier_reading {
        Ok(m) => m,
        Err(e) => return Err(e),
    };
    let old_multiplier = ctx.vault.last_multiplier;
    if active_multiplier <= old_multiplier {
        return Err(StripVaultError::NoDividendDelta);
    }
    let current_raw_balance = ctx.stock_vault_amount;
    proof {
        if old_multiplier > 0 {
            lemma_harvest_remainder(current_raw_balance as int, old_multiplier as int, active_multiplier as int);
        }
    }
    let harvest = match calculate_harvest_amount(current_raw_balance, old_multiplier, active_multiplier) {
        Ok(h) => h,
        Err(e) => return Err(e),
    };
    if harvest == 0 {
        return Err(StripVaultError::NoDividendDelta);
    }
    let pending = match ctx.vault.pending_harvest_amount.checked_add(harvest) {
        Some(p) => p,
        None => return Err(StripVaultError::MathOverflow),
    };
    let remaining_shares = match current_raw_balance.checked_sub(harvest) {
        Some(s) => s,
        None => return Err(StripVaultError::MathOverflow),
    };
    let mut vault = ctx.vault;
    vault.last_multiplier = active_multiplier;
    vault.pending_harvest_amount = pending;
    vault.total_raw_shares = remaining_shares;
    let event = DividendHarvestedEvent {
        vault: ctx.vault_key,
        old_multiplier,
        new_multiplier: active_multiplier,
        harvested_tokens: harvest,
    };
    Ok((vault, event))
}

/// A successful harvest moves a positive amount of stock from the vault to the pending
/// account: the most it can move while what stays, at the new multiplier, is still worth what
/// the whole balance was worth at the old one. It then moves the vault's baseline up to the
/// multiplier it harvested to: the returned vault's last multiplier is the active multiplier
/// read, which the event reports as the new one (with the vault's previous multiplier as the
/// old one). So the same rise is never harvested twice: harvesting again from the returned
/// vault, at the same multiplier and with any stock balance, is refused with `NoDividendDelta`.
pub proof fn lemma_harvest_moves_baseline(
    ctx: KeeperHarvestDividend,
    active: u64,
    again: KeeperHarvestDividend,
)
    requires
        harvest_dividend_result(ctx, Ok(active)) is Ok,
        again.vault == harvest_dividend_result(ctx, Ok(active))->Ok_0.0,
    ensures
        ({
            let (v, e) = harvest_dividend_result(ctx, Ok(active))->Ok_0;
            &&& v.last_multiplier == active
            &&& e.new_multiplier == active
            &&& e.old_multiplier == ctx.vault.last_multiplier
            &&& ctx.vault.last_multiplier < active
            &&& e.harvested_tokens > 0
            &&& v.total_raw_shares + e.harvested_tokens == ctx.stock_vault_amount
            &&& v.pending_harvest_amount == ctx.vault.pending_harvest_amount + e.harvested_tokens
            &&& ctx.stock_vault_amount * e.old_multiplier <= v.total_raw_shares * active
            &&& v.total_raw_shares * active < ctx.stock_vault_amount * e.old_multiplier + active
        }),
        harvest_dividend_result(again, Ok(active)) == Err::<(Vault, DividendHarvestedEvent), _>(
            StripVaultError::NoDividendDelta,
        ),
{
    lemma_harvest_remainder(
        ctx.stock_vault_amount as int,
        ctx.vault.last_multiplier as int,
        active as int,
    );
}

} // verus!
