use vstd::prelude::*;
use crate::errors::StripVaultError;
use crate::events::YieldStrippedEvent;
use crate::state::vault::Vault;
use crate::state::yield_record::{
    active_bps, lemma_active_bps_push, ExpiryCondition, YieldRecord,
};
use crate::utils::accounts::key_eq;
use crate::utils::core_asset::{
    asset_holder_check, check_asset_holder, core_asset_owner, read_core_asset_owner,
};

verus! {

/// The accounts of a strip, by address, with the state and data the decision reads.
#[derive(Debug)]
pub struct OwnerStripPosition {
    /// The signer, who must hold the Master Deed
    pub owner: [u8; 32],
    pub master_deed_asset: [u8; 32],
    /// The program that owns the Master Deed account
    pub master_deed_asset_program_owner: [u8; 32],
    /// The Master Deed account data
    pub master_deed_asset_data: Vec<u8>,
    /// The vault PDA
    pub vault_key: [u8; 32],
    pub vault: Vault,
    /// The Yield NFT asset being created
    pub yield_asset: [u8; 32],
    /// Who receives the Yield NFT
    pub recipient: [u8; 32],
    /// Canonical bump of the yield record PDA
    pub yield_record_bump: u8,
    /// The Metaplex Core program
    pub mpl_core_program: [u8; 32],
}

/// What a strip decides, given the owner read from the Master Deed data.
pub open spec fn strip_result(
    ctx: OwnerStripPosition,
    master_deed_owner: Option<[u8; 32]>,
    share_bps: u16,
    expiry_condition: ExpiryCondition,
    buyout_price_lamports: u64,
) -> Result<(Vault, YieldRecord, YieldStrippedEvent), StripVaultError> {
    let new_total = ctx.vault.total_yield_allocated_bps + share_bps;
    if ctx.master_deed_asset != ctx.vault.master_deed_asset {
        Err(StripVaultError::InvalidAssetAccount)
    } else {
        match asset_holder_check(
            ctx.master_deed_asset_program_owner,
            ctx.mpl_core_program,
            master_deed_owner,
            ctx.owner,
            StripVaultError::UnauthorizedMasterDeedHolder,
        ) {
            Err(e) => Err(e),
            Ok(_) => if share_bps == 0 {
                Err(StripVaultError::ExceedsMaxYieldAllocation)
            } else if new_total > Vault::MAX_YIELD_BPS {
                Err(StripVaultError::ExceedsMaxYieldAllocation)
            } else {
                Ok(
                    (
                        Vault { total_yield_allocated_bps: new_total as u16, ..ctx.vault },
                        YieldRecord {
                            vault: ctx.vault_key,
                            yield_asset_id: ctx.yield_asset,
                            buyout_price_lamports,
                            share_bps,
                            payouts_received_count: 0,
                            is_active: true,
                            bump: ctx.yield_record_bump,
                            expiry_condition,
                        },
                        YieldStrippedEvent {
                            vault: ctx.vault_key,
                            yield_asset_id: ctx.yield_asset,
                            recipient: ctx.recipient,
                            share_bps,
                            total_allocated_bps: new_total as u16,
                        },
                    ),
                )
            },
        }
    }
}

/// Decides a strip once the owner has been read from the Master Deed data: the signer must hold
/// the vault's Master Deed, and the new share must be positive and keep the vault's total
/// allocation within 100% (any total above 10,000 bps is refused with
/// `ExceedsMaxYieldAllocation`). On success the caller mints the Yield NFT to the recipient with the
/// vault as its burn delegate, then stores the yield record and the vault and emits the event.
pub fn decide_strip(
    ctx: &OwnerStripPosition,
    master_deed_owner: Option<[u8; 32]>,
    share_bps: u16,
    expiry_condition: ExpiryCondition,
    buyout_price_lamports: u64,
) -> (r: Result<(Vault, YieldRecord, YieldStrippedEvent), StripVaultError>)
    ensures
        r == strip_result(*ctx, master_deed_owner, share_bps, expiry_condition, buyout_price_lamports),
        ctx.vault.wf() && r is Ok ==> r->Ok_0.0.wf(),
{
    if !key_eq(&ctx.master_deed_asset, &ctx.vault.master_deed_asset) {
        return Err(StripVaultError::InvalidAssetAccount);
    }
    match check_asset_holder(
        &ctx.master_deed_asset_program_owner,
        &ctx.mpl_core_program,
        master_deed_owner,
        &ctx.owner,
        StripVaultError::UnauthorizedMasterDeedHolder,
    ) {
        Err(e) => return Err(e),
        Ok(_) => {},
    }
    if share_bps == 0 {
        return Err(StripVaultError::ExceedsMaxYieldAllocation);
    }
    let new_total_wide = ctx.vault.total_yield_allocated_bps as u32 + share_bps as u32;
    if new_total_wide > Vault::MAX_YIELD_BPS as u32 {
        return Err(StripVaultError::ExceedsMaxYieldAllocation);
    }
    let new_total_allocated = new_total_wide as u16;
    let yield_record = YieldRecord {
        vault: ctx.vault_key,
        yield_asset_id: ctx.yield_asset,
        buyout_price_lamports,
        share_bps,
        payouts_received_count: 0,
        is_active: true,
        bump: ctx.yield_record_bump,
        expiry_condition,
    };
    let mut vault = ctx.vault;
    vault.total_yield_allocated_bps = new_total_allocated;
    let event = YieldStrippedEvent {
        vault: ctx.vault_key,
        yield_asset_id: ctx.yield_asset,
        recipient: ctx.recipient,
        share_bps,
        total_allocated_bps: new_total_allocated,
    };
    Ok((vault, yield_record, event))
}

/// Carves out `share_bps` of future dividends into a Yield NFT for the recipient: reads the
/// Master Deed's owner with Metaplex Core and decides as `decide_strip` does.
pub fn handler(
    ctx: &OwnerStripPosition,
    share_bps: u16,
    expiry_condition: ExpiryCondition,
    buyout_price_lamports: u64,
) -> (r: Result<(Vault, YieldRecord, YieldStrippedEvent), StripVaultError>)
    ensures
        r == strip_result(
            *ctx,
            core_asset_owner(ctx.master_deed_asset_data@),
            share_bps,
            expiry_condition,
            buyout_price_lamports,
        ),
        ctx.vault.wf() && r is Ok ==> r->Ok_0.0.wf(),
{
    let master_deed_owner = read_core_asset_owner(ctx.master_deed_asset_data.as_slice());
    decide_strip(ctx, master_deed_owner, share_bps, expiry_condition, buyout_price_lamports)
}

/// A strip adds exactly the new position's share to the vault's allocation: if the allocation
/// was the sum of the shares of the vault's active records, it is afterwards the same sum over
/// those records and the new one.
pub proof fn lemma_strip_adds_its_share(
    ctx: OwnerStripPosition,
    master_deed_owner: Option<[u8; 32]>,
    share_bps: u16,
    expiry_condition: ExpiryCondition,
    buyout_price_lamports: u64,
    records: Seq<YieldRecord>,
)
    requires
        ctx.vault.total_yield_allocated_bps == active_bps(records),
        strip_result(ctx, master_deed_owner, share_bps, expiry_condition, buyout_price_lamports) is Ok,
    ensures
        ({
            let (v, r, _) = strip_result(
                ctx,
                master_deed_owner,
                share_bps,
                expiry_condition,
                buyout_price_lamports,
            )->Ok_0;
            &&& r.is_active
            &&& r.share_bps == share_bps
            &&& v.total_yield_allocated_bps == ctx.vault.total_yield_allocated_bps + share_bps
            &&& v.total_yield_allocated_bps == active_bps(records.push(r))
        }),
{
    let (v, r, _) = strip_result(ctx, master_deed_owner, share_bps, expiry_condition, buyout_price_lamports)->Ok_0;
    lemma_active_bps_push(records, r);
}

} // verus!
