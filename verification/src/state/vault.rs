use vstd::prelude::*;

verus! {

/// The asset in which a vault pays its dividends out.
#[derive(Clone, Copy, Debug, PartialEq, Eq, Structural)]
pub enum PayoutAssetType {
    Usdc,
    Sol,
}

/// The state of one strip vault. Account addresses are held as their 32 bytes.
#[derive(Clone, Copy, Debug)]
pub struct Vault {
    /// Token-2022 xStock mint
    pub stock_mint: [u8; 32],
    /// Vault's Token-2022 holding account
    pub stock_vault_ata: [u8; 32],
    /// Metaplex Core asset id of the Master Deed
    pub master_deed_asset: [u8; 32],
    /// ATA for USDC, or the vault PDA for native SOL
    pub payout_holding_ata: [u8; 32],
    /// Total raw tokens locked
    pub total_raw_shares: u64,
    /// Multiplier at the last harvest (scaled by 1e9)
    pub last_multiplier: u64,
    /// Raw tokens waiting for the swap step
    pub pending_harvest_amount: u64,
    /// Sum of the active yield shares (at most 10,000)
    pub total_yield_allocated_bps: u16,
    pub payout_asset_type: PayoutAssetType,
    /// Canonical bump of the vault PDA
    pub vault_bump: u8,
    /// Unique vault discriminator seed
    pub vault_seed: u64,
}

impl Vault {
    /// Seed prefix of the vault PDA (the bytes of "vault"), followed by the stock mint and the
    /// vault seed.
    pub const SEED_PREFIX: [u8; 5] = [118, 97, 117, 108, 116];

    /// 100.00% in basis points.
    pub const MAX_YIELD_BPS: u16 = 10_000;

    /// The vault's invariant: no more than the whole dividend stream is ever allocated.
    pub open spec fn wf(self) -> bool {
        self.total_yield_allocated_bps <= Self::MAX_YIELD_BPS
    }
}

} // verus!
