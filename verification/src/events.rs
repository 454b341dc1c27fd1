use vstd::prelude::*;

verus! {

/// Emitted when a vault is created and its Master Deed minted.
#[derive(Clone, Copy, Debug)]
pub struct VaultInitializedEvent {
    pub vault: [u8; 32],
    pub stock_mint: [u8; 32],
    pub master_deed_asset: [u8; 32],
    pub initial_shares: u64,
    pub initial_multiplier: u64,
}

/// Emitted when a share of the dividend stream is carved out into a Yield NFT.
#[derive(Clone, Copy, Debug)]
pub struct YieldStrippedEvent {
    pub vault: [u8; 32],
    pub yield_asset_id: [u8; 32],
    pub recipient: [u8; 32],
    pub share_bps: u16,
    pub total_allocated_bps: u16,
}

/// Emitted when a multiplier rise is harvested into the pending distribution account.
#[derive(Clone, Copy, Debug)]
pub struct DividendHarvestedEvent {
    pub vault: [u8; 32],
    pub old_multiplier: u64,
    pub new_multiplier: u64,
    pub harvested_tokens: u64,
}

/// Emitted when a payout is split between the Yield NFT holders and the Master Deed holder.
#[derive(Clone, Copy, Debug)]
pub struct PayoutDistributedEvent {
    pub vault: [u8; 32],
    pub total_payout: u64,
    pub master_deed_share: u64,
    pub yield_holders_count: u32,
}

/// Emitted when the Master Deed holder buys a yield position back.
#[derive(Clone, Copy, Debug)]
pub struct YieldBoughtOutEvent {
    pub vault: [u8; 32],
    pub yield_asset_id: [u8; 32],
    pub recipient_paid: [u8; 32],
    pub buyout_price_lamports: u64,
    pub share_bps_reclaimed: u16,
}

/// Emitted when harvested stock is swapped into the payout asset.
#[derive(Clone, Copy, Debug)]
pub struct SwapExecutedEvent {
    pub vault: [u8; 32],
    pub stock_amount_in: u64,
    pub payout_amount_out: u64,
}

/// Emitted when the Master Deed is burned and the remaining stock returned to its holder.
#[derive(Clone, Copy, Debug)]
pub struct PrincipalRedeemedEvent {
    pub vault: [u8; 32],
    pub owner: [u8; 32],
    pub stock_mint: [u8; 32],
    pub stock_shares_returned: u64,
}

} // verus!
