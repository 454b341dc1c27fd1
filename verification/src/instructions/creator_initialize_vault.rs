use vstd::prelude::*;
use crate::errors::StripVaultError;
use crate::events::VaultInitializedEvent;
use crate::state::vault::{PayoutAssetType, Vault};

verus! {

/// The accounts of vault creation, by address.
#[derive(Clone, Copy, Debug)]
pub struct CreatorInitializeVault {
    pub creator: [u8; 32],
    pub stock_mint: [u8; 32],
    /// The vault PDA being created
    pub vault: [u8; 32],
    /// Canonical bump of the vault PDA
    pub vault_bump: u8,
    pub stock_vault_ata: [u8; 32],
    pub master_deed_asset: [u8; 32],
    pub payout_holding_ata: [u8; 32],
}

/// The state of a freshly created vault.
pub open spec fn initial_vault(
    ctx: CreatorInitializeVault,
    amount: u64,
    payout_asset_type: PayoutAssetType,
    vault_seed: u64,
    initial_multiplier: u64,
) -> Vault {
    Vault {
        stock_mint: ctx.stock_mint,
        stock_vault_ata: ctx.stock_vault_ata,
        master_deed_asset: ctx.master_deed_asset,
        payout_holding_ata: ctx.payout_holding_ata,
        total_raw_shares: amount,
        last_multiplier: initial_multiplier,
        pending_harvest_amount: 0,
        total_yield_allocated_bps: 0,
        payout_asset_type,
        vault_bump: ctx.vault_bump,
        vault_seed,
    }
}

/// What vault creation decides for every input.
pub open spec fn initialize_result(
    ctx: CreatorInitializeVault,
    amount: u64,
    payout_asset_type: PayoutAssetType,
    vault_seed: u64,
    multiplier_reading: Result<u64, StripVaultError>,
) -> Result<(Vault, VaultInitializedEvent), StripVaultError> {
    if amount == 0 {
        Err(StripVaultError::MathOverflow)
    } else {
        match multiplier_reading {
            Err(e) => Err(e),
            Ok(m) => if m == 0 {
                Err(StripVaultError::InvalidMultiplier)
            } else {
                Ok(
                (
                    initial_vault(ctx, amount, payout_asset_type, vault_seed, m),
                    VaultInitializedEvent {
                        vault: ctx.vault,
                        stock_mint: ctx.stock_mint,
                        master_deed_asset: ctx.master_deed_asset,
                        initial_shares: amount,
                        initial_multiplier: m,
                    },
                ),
            )
            },
        }
    }
}

/// Decides vault creation: `amount` raw stock tokens are locked and the multiplier active now,
/// as read from the stock mint (`multiplier_reading`: the fixed-point multiplier, or why it
/// could not be read), becomes the vault's baseline; a multiplier of zero is refused, since no
/// harvest could ever follow from it. On success the caller transfers `amount`
/// to the vault's stock account, mints the Master Deed to the creator, stores the vault and
/// emits the event.
pub fn handler(
    ctx: &CreatorInitializeVault,
    amount: u64,
    payout_asset_type: PayoutAssetType,
    vault_seed: u64,
    multiplier_reading: Result<u64, StripVaultError>,
) -> (r: Result<(Vault, VaultInitializedEvent), StripVaultError>)
    ensures
        r == initialize_result(*ctx, amount, payout_asset_type, vault_seed, multiplier_reading),
        r matches Ok((v, _)) ==> v.wf(),
{
    if amount == 0 {
        return Err(StripVaultError::MathOverflow);
    }
    let initial_multiplier = match multiplier_reading {
        Ok(m) => m,
        Err(e) => return Err(e),
    };
    if initial_multiplier == 0 {
        return Err(StripVaultError::InvalidMultiplier);
    }
    let vault = Vault {
        stock_mint: ctx.stock_mint,
        stock_vault_ata: ctx.stock_vault_ata,
        master_deed_asset: ctx.master_deed_asset,
        payout_holding_ata: ctx.payout_holding_ata,
        total_raw_shares: amount,
        last_multiplier: initial_multiplier,
        pending_harvest_amount: 0,
        total_yield_allocated_bps: 0,
        payout_asset_type,
        vault_bump: ctx.vault_bump,
        vault_seed,
    };
    let event = VaultInitializedEvent {
        vault: ctx.vault,
        stock_mint: ctx.stock_mint,
        master_deed_asset: ctx.master_deed_asset,
        initial_shares: amount,
        initial_multiplier,
    };
    Ok((vault, event))
}

/// Creation succeeds exactly when something is deposited and the multiplier read is positive.
/// A created vault records the accounts it was created with, locks the deposited amount, takes
/// the multiplier read as its baseline, and starts with nothing pending or allocated.
pub proof fn lemma_created_vault_records_its_accounts(
    ctx: CreatorInitializeVault,
    amount: u64,
    payout_asset_type: PayoutAssetType,
    vault_seed: u64,
    multiplier: u64,
)
    ensures
        initialize_result(ctx, amount, payout_asset_type, vault_seed, Ok(multiplier)) is Ok <==> (
        amount > 0 && multiplier > 0),
        initialize_result(ctx, amount, payout_asset_type, vault_seed, Ok(multiplier)) is Ok ==> ({
            let (v, e) = initialize_result(ctx, amount, payout_asset_type, vault_seed, Ok(multiplier))->Ok_0;
            &&& v.stock_mint == ctx.stock_mint
            &&& v.stock_vault_ata == ctx.stock_vault_ata
            &&& v.master_deed_asset == ctx.master_deed_asset
            &&& v.payout_holding_ata == ctx.payout_holding_ata
            &&& v.vault_bump == ctx.vault_bump
            &&& v.vault_seed == vault_seed
            &&& v.payout_asset_type == payout_asset_type
            &&& v.total_raw_shares == amount
            &&& v.last_multiplier == multiplier
            &&& v.pending_harvest_amount == 0
            &&& v.total_yield_allocated_bps == 0
            &&& e.vault == ctx.vault
            &&& e.stock_mint == ctx.stock_mint
            &&& e.master_deed_asset == ctx.master_deed_asset
            &&& e.initial_shares == amount
            &&& e.initial_multiplier == multiplier
        }),
{
}

} // verus!
