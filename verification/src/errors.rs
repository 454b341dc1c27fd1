use vstd::prelude::*;

verus! {

/// Every way a vault operation can be refused.
#[derive(Clone, Copy, Debug, PartialEq, Eq, Structural)]
pub enum StripVaultError {
    /// Calculation overflow in dividend harvesting math
    MathOverflow,
    /// Current multiplier is not greater than the last recorded multiplier
    NoDividendDelta,
    /// Total allocated yield cannot exceed 100% (10,000 bps)
    ExceedsMaxYieldAllocation,
    /// Caller does not own the Master Deed NFT
    UnauthorizedMasterDeedHolder,
    /// Yield position is already inactive or expired
    YieldPositionInactive,
    /// Cannot redeem principal while active yield positions remain
    ActiveYieldPositionsRemain,
    /// No pending dividend tokens to swap
    NoPendingHarvest,
    /// Invalid Metaplex Core asset account
    InvalidAssetAccount,
    /// Recipient wallet does not match the on-chain owner of the Yield NFT
    InvalidRecipientWallet,
    /// Swap reserve has insufficient liquidity
    InsufficientReserveLiquidity,
    /// Invalid Token-2022 ScaledUiAmountConfig extension
    InvalidScaledUiAmountConfig,
    /// Multiplier is zero or invalid
    InvalidMultiplier,
    /// Payout holding account does not hold enough to cover the payout
    InsufficientPayoutBalance,
    /// Remaining accounts must come in triples
    InvalidRemainingAccounts,
    /// Yield record does not belong to this vault and asset
    InvalidYieldRecord,
    /// Account data is not a valid SPL token account
    InvalidTokenAccount,
    /// A yield record is named more than once in one distribution
    DuplicateYieldRecord,
    /// The active yield positions named do not hold the vault's whole allocation
    MissingYieldPositions,
}

} // verus!
