use vstd::prelude::*;
use crate::errors::StripVaultError;
use crate::utils::accounts::key_eq;

verus! {

/// The owner that Metaplex Core's `BaseAssetV1::from_bytes` reads from asset account data, or
/// `None` where it refuses the data.
pub uninterp spec fn core_asset_owner(data: Seq<u8>) -> Option<[u8; 32]>;

/// Calls `mpl_core::accounts::BaseAssetV1::from_bytes` and keeps the owner. The contract claims
/// that the result is the value named `core_asset_owner` of the data and, as the asset's borsh
/// layout puts a one-byte key before the owner, that an accepted asset has its owner in bytes
/// 1..33. It leaves unsaid which byte patterns (key tag, update authority, name, uri) are refused.
#[verifier::external_body]
pub(crate) fn read_core_asset_owner(data: &[u8]) -> (r: Option<[u8; 32]>)
    ensures
        r == core_asset_owner(data@),
        r matches Some(owner) ==> data@.len() >= 33 && owner@ == data@.subrange(1, 33),
{
    match mpl_core::accounts::BaseAssetV1::from_bytes(data) {
        Ok(asset) => Some(asset.owner.to_bytes()),
        Err(_) => None,
    }
}

/// The result of checking that a Metaplex Core asset account is owned by the Core program and
/// that its parsed owner is `holder`.
pub open spec fn asset_holder_check(
    asset_program_owner: [u8; 32],
    core_program: [u8; 32],
    parsed_owner: Option<[u8; 32]>,
    holder: [u8; 32],
    mismatch: StripVaultError,
) -> Result<(), StripVaultError> {
    if asset_program_owner != core_program {
        Err(StripVaultError::InvalidAssetAccount)
    } else {
        match parsed_owner {
            None => Err(StripVaultError::InvalidAssetAccount),
            Some(owner) => if owner != holder {
                Err(mismatch)
            } else {
                Ok(())
            },
        }
    }
}

/// Checks that an asset account belongs to the Metaplex Core program and that the owner read
/// from it is `holder`; a mismatch of the owner gives `mismatch`.
pub fn check_asset_holder(
    asset_program_owner: &[u8; 32],
    core_program: &[u8; 32],
    parsed_owner: Option<[u8; 32]>,
    holder: &[u8; 32],
    mismatch: StripVaultError,
) -> (r: Result<(), StripVaultError>)
    ensures
        r == asset_holder_check(*asset_program_owner, *core_program, parsed_owner, *holder, mismatch),
{
    if !key_eq(asset_program_owner, core_program) {
        return Err(StripVaultError::InvalidAssetAccount);
    }
    match parsed_owner {
        None => Err(StripVaultError::InvalidAssetAccount),
        Some(owner) => if !key_eq(&owner, holder) {
            Err(mismatch)
        } else {
            Ok(())
        },
    }
}

} // verus!
