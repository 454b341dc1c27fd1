use vstd::prelude::*;
use crate::errors::StripVaultError;
use crate::events::YieldBoughtOutEvent;
use crate::state::vault::Vault;
use crate::state::yield_record::{
    active_bps, allocated_bps, lemma_active_bps_bounds, lemma_active_bps_update, YieldRecord,
};
use crate::utils::accounts::key_eq;
use crate::utils::core_asset::{
    asset_holder_check, check_asset_holder, core_asset_owner, read_core_asset_owner,
};

verus! {

/// The accounts of a buyout, by address, with the state and data the decision reads.
#[derive(Debug)]
pub struct OwnerBuyoutYield {
    /// The signer, who must hold the Master Deed
    pub owner: [u8; 32],
    pub master_deed_asset: [u8; 32],
    /// The program that owns the Master Deed account
    pub master_deed_asset_program_owner: [u8; 32],
    /// The Master Deed account data
    pub master_deed_asset_data: Vec<u8>,
    /// The vault PDA
    pub vault_key: [u8; 32],
    pub vault: Vault,
    /// The Yield NFT asset being bought back and burned
    pub yield_asset: [u8; 32],
    /// The program that owns the Yield NFT account
    pub yield_asset_program_owner: [u8; 32],
    /// The Yield NFT account data
    pub yield_asset_data: Vec<u8>,
    /// The wallet that receives the buyout price
    pub yield_nft_holder_wallet: [u8; 32],
    pub yield_record: YieldRecord,
    /// The Metaplex Core program
    pub mpl_core_program: [u8; 32],
}

/// What a buyout decides, given the owners read from the Master Deed and the Yield NFT data.
pub open spec fn buyout_result(
    ctx: OwnerBuyoutYield,
    master_deed_owner: Option<[u8; 32]>,
    yield_nft_owner: Option<[u8; 32]>,
    now: i64,
) -> Result<(Vault, YieldRecord, YieldBoughtOutEvent), StripVaultError> {
    let record = ctx.yield_record;
    if ctx.master_deed_asset != ctx.vault.master_deed_asset {
        Err(StripVaultError::InvalidAssetAccount)
    } else {
        match asset_holder_check(
            ctx.master_deed_asset_program_owner,
            ctx.mpl_core_program,
            master_deed_owner,
            ctx.owner,
            StripVaultError::UnauthorizedMasterDeedHolder,
        ) {
            Err(e) => Err(e),
            Ok(_) => if record.vault != ctx.vault_key || record.yield_asset_id != ctx.yield_asset {
                Err(StripVaultError::InvalidYieldRecord)
            } else if !record.is_active || record.expired_at(now) {
                Err(StripVaultError::YieldPositionInactive)
            } else {
                match asset_holder_check(
                    ctx.yield_asset_program_owner,
                    ctx.mpl_core_program,
                    yield_nft_owner,
                    ctx.yield_nft_holder_wallet,
                    StripVaultError::InvalidRecipientWallet,
                ) {
                    Err(e) => Err(e),
                    Ok(_) => {
                        let total = ctx.vault.total_yield_allocated_bps;
                        let new_total = if total >= record.share_bps {
                            (total - record.share_bps) as u16
                        } else {
                            0u16
                        };
                        Ok(
                            (
                                Vault { total_yield_allocated_bps: new_total, ..ctx.vault },
                                YieldRecord { is_active: false, ..record },
                                YieldBoughtOutEvent {
                                    vault: ctx.vault_key,
                                    yield_asset_id: record.yield_asset_id,
                                    recipient_paid: ctx.yield_nft_holder_wallet,
                                    buyout_price_lamports: record.buyout_price_lamports,
                                    share_bps_reclaimed: record.share_bps,
                                },
                            ),
                        )
                    },
                }
            },
        }
    }
}

/// Decides a buyout once the owners have been read: the signer must hold the vault's Master
/// Deed, the yield record must be this vault's record of this asset, active and not expired at
/// `now` (an expired share has already reverted to the Master Deed), and the paid wallet
/// must be the Yield NFT's current owner. On success the caller pays `buyout_price_lamports`
/// (if any) from the signer to that wallet, burns the Yield NFT as the vault's delegate, stores
/// the deactivated record and the vault, whose allocation drops by the share, and emits the event.
pub fn decide_buyout(
    ctx: &OwnerBuyoutYield,
    master_deed_owner: Option<[u8; 32]>,
    yield_nft_owner: Option<[u8; 32]>,
    now: i64,
) -> (r: Result<(Vault, YieldRecord, YieldBoughtOutEvent), StripVaultError>)
    ensures
        r == buyout_result(*ctx, master_deed_owner, yield_nft_owner, now),
        ctx.vault.wf() && r is Ok ==> r->Ok_0.0.wf(),
{
    if !key_eq(&ctx.master_deed_asset, &ctx.vault.master_deed_asset) {
        return Err(StripVaultError::InvalidAssetAccount);
    }
    match check_asset_holder(
        &ctx.master_deed_asset_program_owner,
        &ctx.mpl_core_program,
        master_deed_owner,
        &ctx.owner,
        StripVaultError::UnauthorizedMasterDeedHolder,
    ) {
        Err(e) => return Err(e),
        Ok(_) => {},
    }
    let record = ctx.yield_record;
    if !key_eq(&record.vault, &ctx.vault_key) || !key_eq(&record.yield_asset_id, &ctx.yield_asset) {
        return Err(StripVaultError::InvalidYieldRecord);
    }
    if !record.is_active || record.is_expired(now) {
        return Err(StripVaultError::YieldPositionInactive);
    }
    match check_asset_holder(
        &ctx.yield_asset_program_owner,
        &ctx.mpl_core_program,
        yield_nft_owner,
        &ctx.yield_nft_holder_wallet,
        StripVaultError::InvalidRecipientWallet,
    ) {
        Err(e) => return Err(e),
        Ok(_) => {},
    }
    let mut yield_record = record;
    yield_record.is_active = false;
    let mut vault = ctx.vault;
    vault.total_yield_allocated_bps = vault.total_yield_allocated_bps.saturating_sub(record.share_bps);
    let event = YieldBoughtOutEvent {
        vault: ctx.vault_key,
        yield_asset_id: record.yield_asset_id,
        recipient_paid: ctx.yield_nft_holder_wallet,
        buyout_price_lamports: record.buyout_price_lamports,
        share_bps_reclaimed: record.share_bps,
    };
    Ok((vault, yield_record, event))
}

/// Buys a yield position back for its fixed SOL price: reads the owners of the Master Deed and
/// of the Yield NFT with Metaplex Core and decides as `decide_buyout` does at `now`.
pub fn handler(ctx: &OwnerBuyoutYield, now: i64) -> (r: Result<
    (Vault, YieldRecord, YieldBoughtOutEvent),
    StripVaultError,
>)
    ensures
        r == buyout_result(
            *ctx,
            core_asset_owner(ctx.master_deed_asset_data@),
            core_asset_owner(ctx.yield_asset_data@),
            now,
        ),
        ctx.vault.wf() && r is Ok ==> r->Ok_0.0.wf(),
{
    let master_deed_owner = read_core_asset_owner(ctx.master_deed_asset_data.as_slice());
    let yield_nft_owner = read_core_asset_owner(ctx.yield_asset_data.as_slice());
    decide_buyout(ctx, master_deed_owner, yield_nft_owner, now)
}

/// A buyout removes exactly the bought position's share from the vault's allocation: if the
/// allocation was the sum of the shares of the vault's active records, among them the bought
/// one at index `k`, it is afterwards the same sum with that record deactivated.
pub proof fn lemma_buyout_releases_its_share(
    ctx: OwnerBuyoutYield,
    master_deed_owner: Option<[u8; 32]>,
    yield_nft_owner: Option<[u8; 32]>,
    now: i64,
    records: Seq<YieldRecord>,
    k: int,
)
    requires
        0 <= k < records.len(),
        records[k] == ctx.yield_record,
        ctx.vault.total_yield_allocated_bps == active_bps(records),
        buyout_result(ctx, master_deed_owner, yield_nft_owner, now) is Ok,
    ensures
        ({
            let (v, r, _) = buyout_result(ctx, master_deed_owner, yield_nft_owner, now)->Ok_0;
            &&& !r.is_active
            &&& v.total_yield_allocated_bps == ctx.vault.total_yield_allocated_bps
                - ctx.yield_record.share_bps
            &&& v.total_yield_allocated_bps == active_bps(records.update(k, r))
        }),
{
    let (v, r, _) = buyout_result(ctx, master_deed_owner, yield_nft_owner, now)->Ok_0;
    lemma_active_bps_bounds(records, k);
    lemma_active_bps_update(records, k, r);
    assert(allocated_bps(records[k]) == ctx.yield_record.share_bps);
}

} // verus!
