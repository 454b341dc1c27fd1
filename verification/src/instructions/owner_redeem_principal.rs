use vstd::prelude::*;
use crate::errors::StripVaultError;
use crate::events::PrincipalRedeemedEvent;
use crate::state::vault::Vault;
use crate::utils::core_asset::{
    asset_holder_check, check_asset_holder, core_asset_owner, read_core_asset_owner,
};
use crate::utils::scaled_ui::MINT_DECIMALS_OFFSET;

verus! {

/// The accounts of a principal redemption, by address, with the state and data the decision reads.
#[derive(Debug)]
pub struct OwnerRedeemPrincipal {
    /// The signer, who must hold the Master Deed
    pub owner: [u8; 32],
    /// The vault PDA
    pub vault_key: [u8; 32],
    pub vault: Vault,
    /// The stock mint's account data
    pub stock_mint_data: Vec<u8>,
    /// Raw balance of the vault's stock account
    pub stock_vault_amount: u64,
    /// The program that owns the Master Deed account
    pub master_deed_asset_program_owner: [u8; 32],
    /// The Master Deed account data
    pub master_deed_asset_data: Vec<u8>,
    /// The Metaplex Core program
    pub mpl_core_program: [u8; 32],
}

/// What a redemption decides, given the owner read from the Master Deed data: the stock mint's
/// decimals where stock is returned, and the event.
pub open spec fn redeem_result(ctx: OwnerRedeemPrincipal, master_deed_owner: Option<[u8; 32]>) -> Result<
    (Option<u8>, PrincipalRedeemedEvent),
    StripVaultError,
> {
    let data = ctx.stock_mint_data@;
    let event = PrincipalRedeemedEvent {
        vault: ctx.vault_key,
        owner: ctx.owner,
        stock_mint: ctx.vault.stock_mint,
        stock_shares_returned: ctx.stock_vault_amount,
    };
    if ctx.vault.total_yield_allocated_bps != 0 {
        Err(StripVaultError::ActiveYieldPositionsRemain)
    } else {
        match asset_holder_check(
            ctx.master_deed_asset_program_owner,
            ctx.mpl_core_program,
            master_deed_owner,
            ctx.owner,
            StripVaultError::UnauthorizedMasterDeedHolder,
        ) {
            Err(e) => Err(e),
            Ok(_) => if ctx.stock_vault_amount == 0 {
                Ok((None, event))
            } else if data.len() <= MINT_DECIMALS_OFFSET {
                Err(StripVaultError::InvalidScaledUiAmountConfig)
            } else {
                Ok((Some(data[MINT_DECIMALS_OFFSET as int]), event))
            },
        }
    }
}

/// Decides a redemption once the owner has been read: no yield position may remain allocated
/// and the signer must hold the Master Deed. On success the caller burns the Master Deed,
/// returns all `stock_shares_returned` raw stock to the signer (with the decimals given, where
/// there is stock), closes the vault's stock account and the vault, and emits the event.
pub fn decide_redeem(ctx: &OwnerRedeemPrincipal, master_deed_owner: Option<[u8; 32]>) -> (r: Result<
    (Option<u8>, PrincipalRedeemedEvent),
    StripVaultError,
>)
    ensures
        r == redeem_result(*ctx, master_deed_owner),
{
    if ctx.vault.total_yield_allocated_bps != 0 {
        return Err(StripVaultError::ActiveYieldPositionsRemain);
    }
    match check_asset_holder(
        &ctx.master_deed_asset_program_owner,
        &ctx.mpl_core_program,
        master_deed_owner,
        &ctx.owner,
        StripVaultError::UnauthorizedMasterDeedHolder,
    ) {
        Err(e) => return Err(e),
        Ok(_) => {},
    }
    let remaining_tokens = ctx.stock_vault_amount;
    let mut decimals: Option<u8> = None;
    if remaining_tokens > 0 {
        if ctx.stock_mint_data.len() <= MINT_DECIMALS_OFFSET {
            return Err(StripVaultError::InvalidScaledUiAmountConfig);
        }
        decimals = Some(ctx.stock_mint_data[MINT_DECIMALS_OFFSET]);
    }
    let event = PrincipalRedeemedEvent {
        vault: ctx.vault_key,
        owner: ctx.owner,
        stock_mint: ctx.vault.stock_mint,
        stock_shares_returned: remaining_tokens,
    };
    Ok((decimals, event))
}

/// Unwinds the vault: reads the Master Deed's owner with Metaplex Core and decides as
/// `decide_redeem` does.
pub fn handler(ctx: &OwnerRedeemPrincipal) -> (r: Result<(Option<u8>, PrincipalRedeemedEvent), StripVaultError>)
    ensures
        r == redeem_result(*ctx, core_asset_owner(ctx.master_deed_asset_data@)),
        r matches Ok((decimals, e)) ==> {
            &&& ctx.vault.total_yield_allocated_bps == 0
            &&& e.stock_shares_returned == ctx.stock_vault_amount
            &&& (decimals is Some <==> ctx.stock_vault_amount > 0)
        },
{
    let master_deed_owner = read_core_asset_owner(ctx.master_deed_asset_data.as_slice());
    decide_redeem(ctx, master_deed_owner)
}

/// A redemption succeeds only for the Master Deed's holder (a Metaplex Core asset owned by the
/// signer) once no yield is allocated. One that returns stock hands the transfer the stock
/// mint's own decimals byte, and one that returns none gives no decimals; either way it returns
/// the whole balance.
pub proof fn lemma_redeem_uses_mint_decimals(ctx: OwnerRedeemPrincipal, master_deed_owner: Option<[u8; 32]>)
    requires
        redeem_result(ctx, master_deed_owner) is Ok,
    ensures
        ({
            let (decimals, e) = redeem_result(ctx, master_deed_owner)->Ok_0;
            &&& ctx.stock_vault_amount > 0 ==> ctx.stock_mint_data@.len() > MINT_DECIMALS_OFFSET
                && decimals == Some(ctx.stock_mint_data@[MINT_DECIMALS_OFFSET as int])
            &&& ctx.stock_vault_amount == 0 ==> decimals is None
            &&& e.stock_shares_returned == ctx.stock_vault_amount
            &&& ctx.vault.total_yield_allocated_bps == 0
            &&& ctx.master_deed_asset_program_owner == ctx.mpl_core_program
            &&& master_deed_owner == Some(ctx.owner)
        }),
{
}

} // verus!
