use vstd::prelude::*;
use crate::errors::StripVaultError;
use crate::events::SwapExecutedEvent;
use crate::state::vault::{PayoutAssetType, Vault};
use crate::utils::accounts::key_eq;
use crate::utils::math::{
    calculate_simulated_swap_output, swap_output_result, swap_rate, DEFAULT_SOL_SWAP_RATE, DEFAULT_USDC_SWAP_RATE,
};
use vstd::arithmetic::power::{pow, lemma_pow_positive};
use crate::utils::scaled_ui::MINT_DECIMALS_OFFSET;

verus! {

/// The accounts of a simulated swap, by address, with the state and data the decision reads.
#[derive(Debug)]
pub struct KeeperExecuteSwap {
    /// The vault PDA
    pub vault_key: [u8; 32],
    pub vault: Vault,
    /// The stock mint's account data
    pub stock_mint_data: Vec<u8>,
    /// The account that receives the payout asset
    pub vault_payout_account: [u8; 32],
    /// Lamports held by the swap reserve authority
    pub swap_reserve_lamports: u64,
}

/// What a simulated swap decides for every input: the new vault state, the stock mint's
/// decimals and the event, whose amounts are the stock sent in and the payout sent out.
pub open spec fn execute_swap_result(ctx: KeeperExecuteSwap, custom_rate: Option<u64>) -> Result<
    (Vault, u8, SwapExecutedEvent),
    StripVaultError,
> {
    let pending = ctx.vault.pending_harvest_amount;
    let data = ctx.stock_mint_data@;
    if pending == 0 {
        Err(StripVaultError::NoPendingHarvest)
    } else if data.len() <= MINT_DECIMALS_OFFSET {
        Err(StripVaultError::InvalidScaledUiAmountConfig)
    } else {
        let decimals = data[MINT_DECIMALS_OFFSET as int];
        match swap_output_result(pending, decimals, ctx.vault.payout_asset_type, custom_rate) {
            Err(e) => Err(e),
            Ok(payout) => if ctx.vault.payout_asset_type == PayoutAssetType::Usdc
                && ctx.vault_payout_account != ctx.vault.payout_holding_ata {
                Err(StripVaultError::InvalidRecipientWallet)
            } else if ctx.vault.payout_asset_type == PayoutAssetType::Sol
                && ctx.swap_reserve_lamports < payout {
                Err(StripVaultError::InsufficientReserveLiquidity)
            } else {
                Ok(
                    (
                        Vault { pending_harvest_amount: 0, ..ctx.vault },
                        decimals,
                        SwapExecutedEvent {
                            vault: ctx.vault_key,
                            stock_amount_in: pending,
                            payout_amount_out: payout,
                        },
                    ),
                )
            },
        }
    }
}

/// Decides the simulated swap of the harvested stock into the vault's payout asset at the
/// oracle rate (`custom_rate`, or the asset's default). On success the caller moves
/// `stock_amount_in` stock from the pending distribution account to the swap reserve, releases
/// `payout_amount_out` of the payout asset from the reserve to the vault's payout account,
/// stores the vault and emits the event.
pub fn handler(ctx: &KeeperExecuteSwap, custom_rate: Option<u64>) -> (r: Result<
    (Vault, u8, SwapExecutedEvent),
    StripVaultError,
>)
    ensures
        r == execute_swap_result(*ctx, custom_rate),
        r matches Ok((v, _, e)) ==> {
            &&& e.stock_amount_in == ctx.vault.pending_harvest_amount
            &&& v.pending_harvest_amount == 0
            &&& v.total_yield_allocated_bps == ctx.vault.total_yield_allocated_bps
        },
{
    let pending_amount = ctx.vault.pending_harvest_amount;
    if pending_amount == 0 {
        return Err(StripVaultError::NoPendingHarvest);
    }
    if ctx.stock_mint_data.len() <= MINT_DECIMALS_OFFSET {
        return Err(StripVaultError::InvalidScaledUiAmountConfig);
    }
    let decimals = ctx.stock_mint_data[MINT_DECIMALS_OFFSET];
    let payout_amount = match calculate_simulated_swap_output(
        pending_amount,
        decimals,
        ctx.vault.payout_asset_type,
        custom_rate,
    ) {
        Ok(p) => p,
        Err(e) => return Err(e),
    };
    match ctx.vault.payout_asset_type {
        PayoutAssetType::Usdc => {
            if !key_eq(&ctx.vault_payout_account, &ctx.vault.payout_holding_ata) {
                return Err(StripVaultError::InvalidRecipientWallet);
            }
        },
        PayoutAssetType::Sol => {
            if ctx.swap_reserve_lamports < payout_amount {
                return Err(StripVaultError::InsufficientReserveLiquidity);
            }
        },
    }
    let mut vault = ctx.vault;
    vault.pending_harvest_amount = 0;
    let event = SwapExecutedEvent {
        vault: ctx.vault_key,
        stock_amount_in: pending_amount,
        payout_amount_out: payout_amount,
    };
    Ok((vault, decimals, event))
}

/// A successful swap sends in all the pending stock and pays out the pending stock times the
/// exchange rate (the custom rate where one is given, else the payout asset's default rate),
/// divided by 10 to the power of the stock mint's decimals byte, rounded down; the decimals it
/// returns are that byte. USDC is paid only into the vault's payout holding account, and SOL
/// only out of a reserve that holds enough.
pub proof fn lemma_swap_pays_at_the_mint_decimals(ctx: KeeperExecuteSwap, custom_rate: Option<u64>)
    requires
        execute_swap_result(ctx, custom_rate) is Ok,
    ensures
        ({
            let (v, decimals, e) = execute_swap_result(ctx, custom_rate)->Ok_0;
            let pending = ctx.vault.pending_harvest_amount;
            let rate: int = match custom_rate {
                Some(r) => r as int,
                None => match ctx.vault.payout_asset_type {
                    PayoutAssetType::Usdc => DEFAULT_USDC_SWAP_RATE as int,
                    PayoutAssetType::Sol => DEFAULT_SOL_SWAP_RATE as int,
                },
            };
            &&& ctx.stock_mint_data@.len() > MINT_DECIMALS_OFFSET
            &&& decimals == ctx.stock_mint_data@[MINT_DECIMALS_OFFSET as int]
            &&& e.stock_amount_in == pending
            &&& e.payout_amount_out == pending * rate / pow(10, decimals as nat)
            &&& v.pending_harvest_amount == 0
            &&& v.total_yield_allocated_bps == ctx.vault.total_yield_allocated_bps
            &&& pending > 0
            &&& (ctx.vault.payout_asset_type == PayoutAssetType::Usdc ==> ctx.vault_payout_account
                == ctx.vault.payout_holding_ata)
            &&& (ctx.vault.payout_asset_type == PayoutAssetType::Sol ==> e.payout_amount_out
                <= ctx.swap_reserve_lamports)
        }),
{
    let (v, decimals, e) = execute_swap_result(ctx, custom_rate)->Ok_0;
    let pending = ctx.vault.pending_harvest_amount;
    let asset = ctx.vault.payout_asset_type;
    assert(decimals == ctx.stock_mint_data@[MINT_DECIMALS_OFFSET as int]);
    lemma_pow_positive(10, decimals as nat);
    assert(swap_output_result(pending, decimals, asset, custom_rate) == Ok::<u64, StripVaultError>(
        e.payout_amount_out,
    ));
    assert(e.payout_amount_out == pending * swap_rate(asset, custom_rate) / pow(10, decimals as nat));
}

} // verus!
