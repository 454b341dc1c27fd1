use anchor_lang::prelude::Pubkey;
use strip_vault::errors::StripVaultError;
use strip_vault::instructions::creator_initialize_vault::{self, CreatorInitializeVault};
use strip_vault::instructions::keeper_distribute_payout::{self, KeeperDistributePayout, PayoutEntry};
use strip_vault::instructions::keeper_execute_swap::{self, KeeperExecuteSwap};
use strip_vault::instructions::keeper_harvest_dividend::{self, KeeperHarvestDividend};
use strip_vault::instructions::owner_buyout_yield::{self, OwnerBuyoutYield};
use strip_vault::instructions::owner_redeem_principal::{self, OwnerRedeemPrincipal};
use strip_vault::instructions::owner_strip_position::{self, OwnerStripPosition};
use strip_vault::state::vault::{PayoutAssetType, Vault};
use strip_vault::state::yield_record::{ExpiryCondition, YieldRecord};

fn key(b: u8) -> [u8; 32] {
    [b; 32]
}

fn core_id() -> [u8; 32] {
    mpl_core::ID.to_bytes()
}

/// Borsh bytes of a Metaplex Core asset with the given owner, no update authority, empty
/// name and uri and no sequence number.
fn core_asset(owner: [u8; 32]) -> Vec<u8> {
    let mut v = vec![1u8];
    v.extend_from_slice(&owner);
    v.push(0);
    v.extend_from_slice(&0u32.to_le_bytes());
    v.extend_from_slice(&0u32.to_le_bytes());
    v.push(0);
    v
}

/// Bytes of an initialized SPL token account with the given owner and amount.
fn token_account(owner: [u8; 32], amount: u64) -> Vec<u8> {
    let mut v = vec![9u8; 32];
    v.extend_from_slice(&owner);
    v.extend_from_slice(&amount.to_le_bytes());
    v.extend_from_slice(&[0u8; 36]);
    v.push(1);
    v.extend_from_slice(&[0u8; 12]);
    v.extend_from_slice(&0u64.to_le_bytes());
    v.extend_from_slice(&[0u8; 36]);
    assert_eq!(v.len(), 165);
    v
}

fn vault(asset: PayoutAssetType, allocated: u16) -> Vault {
    Vault {
        stock_mint: key(1),
        stock_vault_ata: key(2),
        master_deed_asset: key(3),
        payout_holding_ata: key(4),
        total_raw_shares: 100_000_000,
        last_multiplier: 1_000_000_000,
        pending_harvest_amount: 0,
        total_yield_allocated_bps: allocated,
        payout_asset_type: asset,
        vault_bump: 254,
        vault_seed: 7,
    }
}

const VAULT_KEY: u8 = 50;
const OWNER: u8 = 60;

fn record(asset: [u8; 32], bps: u16, expiry: ExpiryCondition) -> YieldRecord {
    YieldRecord {
        vault: key(VAULT_KEY),
        yield_asset_id: asset,
        buyout_price_lamports: 5_000,
        share_bps: bps,
        payouts_received_count: 0,
        is_active: true,
        bump: 253,
        expiry_condition: expiry,
    }
}

// ---------------------------------------------------------------- initialize

fn init_ctx() -> CreatorInitializeVault {
    CreatorInitializeVault {
        creator: key(OWNER),
        stock_mint: key(1),
        vault: key(VAULT_KEY),
        vault_bump: 254,
        stock_vault_ata: key(2),
        master_deed_asset: key(3),
        payout_holding_ata: key(4),
    }
}

#[test]
fn initialize_vault_records_deposit_and_baseline_multiplier() {
    let (v, e) = creator_initialize_vault::handler(&init_ctx(), 100, PayoutAssetType::Sol, 7, Ok(1_050_000_000)).unwrap();
    assert_eq!(v.total_raw_shares, 100);
    assert_eq!(v.last_multiplier, 1_050_000_000);
    assert_eq!(v.total_yield_allocated_bps, 0);
    assert_eq!(v.pending_harvest_amount, 0);
    assert_eq!(v.vault_seed, 7);
    assert_eq!(v.vault_bump, 254);
    assert_eq!(v.master_deed_asset, key(3));
    assert_eq!(v.payout_asset_type, PayoutAssetType::Sol);
    assert_eq!(e.initial_shares, 100);
    assert_eq!(e.initial_multiplier, 1_050_000_000);
    assert_eq!(e.vault, key(VAULT_KEY));
}

#[test]
fn initialize_vault_errors() {
    assert_eq!(
        creator_initialize_vault::handler(&init_ctx(), 0, PayoutAssetType::Sol, 7, Ok(1)).err(),
        Some(StripVaultError::MathOverflow)
    );
    // a zero amount is refused before the mint is looked at
    assert_eq!(
        creator_initialize_vault::handler(&init_ctx(), 0, PayoutAssetType::Sol, 7, Err(StripVaultError::InvalidMultiplier)).err(),
        Some(StripVaultError::MathOverflow)
    );
    assert_eq!(
        creator_initialize_vault::handler(&init_ctx(), 5, PayoutAssetType::Usdc, 7, Err(StripVaultError::InvalidScaledUiAmountConfig)).err(),
        Some(StripVaultError::InvalidScaledUiAmountConfig)
    );
    // a multiplier that reads as zero can never be harvested from
    assert_eq!(
        creator_initialize_vault::handler(&init_ctx(), 5, PayoutAssetType::Usdc, 7, Ok(0)).err(),
        Some(StripVaultError::InvalidMultiplier)
    );
}

// ---------------------------------------------------------------- strip

fn strip_ctx(allocated: u16, signer: [u8; 32], deed_owner: [u8; 32]) -> OwnerStripPosition {
    OwnerStripPosition {
        owner: signer,
        master_deed_asset: key(3),
        master_deed_asset_program_owner: core_id(),
        master_deed_asset_data: core_asset(deed_owner),
        vault_key: key(VAULT_KEY),
        vault: vault(PayoutAssetType::Usdc, allocated),
        yield_asset: key(70),
        recipient: key(80),
        yield_record_bump: 200,
        mpl_core_program: core_id(),
    }
}

#[test]
fn strip_creates_record_and_raises_allocation() {
    let ctx = strip_ctx(1_000, key(OWNER), key(OWNER));
    let (v, r, e) = owner_strip_position::handler(&ctx, 2_500, ExpiryCondition::PayoutCount(4), 9_000).unwrap();
    assert_eq!(v.total_yield_allocated_bps, 3_500);
    assert_eq!(r.share_bps, 2_500);
    assert_eq!(r.vault, key(VAULT_KEY));
    assert_eq!(r.yield_asset_id, key(70));
    assert_eq!(r.buyout_price_lamports, 9_000);
    assert_eq!(r.payouts_received_count, 0);
    assert!(r.is_active);
    assert_eq!(r.bump, 200);
    assert_eq!(r.expiry_condition, ExpiryCondition::PayoutCount(4));
    assert_eq!(e.total_allocated_bps, 3_500);
    assert_eq!(e.recipient, key(80));
}

#[test]
fn strip_up_to_exactly_full_allocation() {
    let ctx = strip_ctx(7_500, key(OWNER), key(OWNER));
    let (v, _, _) = owner_strip_position::handler(&ctx, 2_500, ExpiryCondition::Never, 0).unwrap();
    assert_eq!(v.total_yield_allocated_bps, 10_000);
    assert_eq!(
        owner_strip_position::handler(&ctx, 2_501, ExpiryCondition::Never, 0).err(),
        Some(StripVaultError::ExceedsMaxYieldAllocation)
    );
}

#[test]
fn strip_errors() {
    let ok = strip_ctx(0, key(OWNER), key(OWNER));
    assert_eq!(owner_strip_position::handler(&ok, 0, ExpiryCondition::Never, 0).err(), Some(StripVaultError::ExceedsMaxYieldAllocation));

    let not_holder = strip_ctx(0, key(OWNER), key(61));
    assert_eq!(owner_strip_position::handler(&not_holder, 10, ExpiryCondition::Never, 0).err(), Some(StripVaultError::UnauthorizedMasterDeedHolder));

    let mut wrong_deed = strip_ctx(0, key(OWNER), key(OWNER));
    wrong_deed.master_deed_asset = key(33);
    assert_eq!(owner_strip_position::handler(&wrong_deed, 10, ExpiryCondition::Never, 0).err(), Some(StripVaultError::InvalidAssetAccount));

    let mut not_core = strip_ctx(0, key(OWNER), key(OWNER));
    not_core.master_deed_asset_program_owner = key(0);
    assert_eq!(owner_strip_position::handler(&not_core, 10, ExpiryCondition::Never, 0).err(), Some(StripVaultError::InvalidAssetAccount));

    let mut garbage = strip_ctx(0, key(OWNER), key(OWNER));
    garbage.master_deed_asset_data = vec![1, 2, 3];
    assert_eq!(owner_strip_position::handler(&garbage, 10, ExpiryCondition::Never, 0).err(), Some(StripVaultError::InvalidAssetAccount));

    // a total past 16 bits is still just an allocation above 100%
    let overflowing = strip_ctx(65_000, key(OWNER), key(OWNER));
    assert_eq!(owner_strip_position::handler(&overflowing, 1_000, ExpiryCondition::Never, 0).err(), Some(StripVaultError::ExceedsMaxYieldAllocation));
    let full = strip_ctx(10_000, key(OWNER), key(OWNER));
    assert_eq!(owner_strip_position::handler(&full, u16::MAX, ExpiryCondition::Never, 0).err(), Some(StripVaultError::ExceedsMaxYieldAllocation));
}

// ---------------------------------------------------------------- harvest

#[test]
fn harvest_moves_the_dividend_slice() {
    let mut v = vault(PayoutAssetType::Usdc, 0);
    v.pending_harvest_amount = 10;
    let ctx = KeeperHarvestDividend { vault_key: key(VAULT_KEY), vault: v, stock_vault_amount: 100_000_000 };
    let (v2, e) = keeper_harvest_dividend::handler(&ctx, Ok(1_050_000_000)).unwrap();
    assert_eq!(e.harvested_tokens, 4_761_904);
    assert_eq!(e.old_multiplier, 1_000_000_000);
    assert_eq!(e.new_multiplier, 1_050_000_000);
    assert_eq!(v2.total_raw_shares, 95_238_096);
    assert_eq!(v2.pending_harvest_amount, 4_761_914);
    assert_eq!(v2.last_multiplier, 1_050_000_000);
}

#[test]
fn harvest_errors() {
    let ctx = KeeperHarvestDividend { vault_key: key(VAULT_KEY), vault: vault(PayoutAssetType::Usdc, 0), stock_vault_amount: 100 };
    assert_eq!(keeper_harvest_dividend::handler(&ctx, Err(StripVaultError::InvalidMultiplier)).err(), Some(StripVaultError::InvalidMultiplier));
    assert_eq!(keeper_harvest_dividend::handler(&ctx, Ok(1_000_000_000)).err(), Some(StripVaultError::NoDividendDelta));
    // 100 raw tokens * 0.000000001 / 1.000000001 rounds to nothing
    assert_eq!(keeper_harvest_dividend::handler(&ctx, Ok(1_000_000_001)).err(), Some(StripVaultError::NoDividendDelta));

    let mut zero_base = vault(PayoutAssetType::Usdc, 0);
    zero_base.last_multiplier = 0;
    let ctx0 = KeeperHarvestDividend { vault_key: key(VAULT_KEY), vault: zero_base, stock_vault_amount: 100 };
    assert_eq!(keeper_harvest_dividend::handler(&ctx0, Ok(5)).err(), Some(StripVaultError::InvalidMultiplier));

    let mut full = vault(PayoutAssetType::Usdc, 0);
    full.pending_harvest_amount = u64::MAX;
    let ctx2 = KeeperHarvestDividend { vault_key: key(VAULT_KEY), vault: full, stock_vault_amount: 100 };
    assert_eq!(keeper_harvest_dividend::handler(&ctx2, Ok(2_000_000_000)).err(), Some(StripVaultError::MathOverflow));
}

// ---------------------------------------------------------------- swap

fn mint_data(decimals: u8) -> Vec<u8> {
    let mut d = vec![0u8; 82];
    d[44] = decimals;
    d
}

#[test]
fn swap_converts_pending_stock() {
    let mut v = vault(PayoutAssetType::Sol, 0);
    v.pending_harvest_amount = 10_000_000;
    let ctx = KeeperExecuteSwap { vault_key: key(VAULT_KEY), vault: v, stock_mint_data: mint_data(6), vault_payout_account: key(VAULT_KEY), swap_reserve_lamports: 12_000_000_000 };
    let (v2, decimals, e) = keeper_execute_swap::handler(&ctx, None).unwrap();
    assert_eq!(decimals, 6);
    assert_eq!(v2.pending_harvest_amount, 0);
    assert_eq!(e.stock_amount_in, 10_000_000);
    assert_eq!(e.payout_amount_out, 12_000_000_000);

    let mut u = vault(PayoutAssetType::Usdc, 0);
    u.pending_harvest_amount = 10_000_000;
    let ctx_u = KeeperExecuteSwap { vault_key: key(VAULT_KEY), vault: u, stock_mint_data: mint_data(6), vault_payout_account: key(4), swap_reserve_lamports: 0 };
    let (_, _, e_u) = keeper_execute_swap::handler(&ctx_u, Some(200_000_000)).unwrap();
    assert_eq!(e_u.payout_amount_out, 2_000_000_000);
}

#[test]
fn swap_errors() {
    let mut v = vault(PayoutAssetType::Sol, 0);
    let none_pending = KeeperExecuteSwap { vault_key: key(VAULT_KEY), vault: v, stock_mint_data: mint_data(6), vault_payout_account: key(VAULT_KEY), swap_reserve_lamports: 0 };
    assert_eq!(keeper_execute_swap::handler(&none_pending, None).err(), Some(StripVaultError::NoPendingHarvest));

    v.pending_harvest_amount = 10_000_000;
    let short_mint = KeeperExecuteSwap { vault_key: key(VAULT_KEY), vault: v, stock_mint_data: vec![0u8; 44], vault_payout_account: key(VAULT_KEY), swap_reserve_lamports: u64::MAX };
    assert_eq!(keeper_execute_swap::handler(&short_mint, None).err(), Some(StripVaultError::InvalidScaledUiAmountConfig));

    let poor_reserve = KeeperExecuteSwap { vault_key: key(VAULT_KEY), vault: v, stock_mint_data: mint_data(6), vault_payout_account: key(VAULT_KEY), swap_reserve_lamports: 11_999_999_999 };
    assert_eq!(keeper_execute_swap::handler(&poor_reserve, None).err(), Some(StripVaultError::InsufficientReserveLiquidity));

    let mut u = vault(PayoutAssetType::Usdc, 0);
    u.pending_harvest_amount = 1;
    let wrong_account = KeeperExecuteSwap { vault_key: key(VAULT_KEY), vault: u, stock_mint_data: mint_data(6), vault_payout_account: key(5), swap_reserve_lamports: 0 };
    assert_eq!(keeper_execute_swap::handler(&wrong_account, None).err(), Some(StripVaultError::InvalidRecipientWallet));
    assert_eq!(keeper_execute_swap::handler(&wrong_account, Some(0)).err(), Some(StripVaultError::InvalidMultiplier));
}

// ---------------------------------------------------------------- buyout

fn buyout_ctx(rec: YieldRecord, holder: [u8; 32], paid_wallet: [u8; 32]) -> OwnerBuyoutYield {
    OwnerBuyoutYield {
        owner: key(OWNER),
        master_deed_asset: key(3),
        master_deed_asset_program_owner: core_id(),
        master_deed_asset_data: core_asset(key(OWNER)),
        vault_key: key(VAULT_KEY),
        vault: vault(PayoutAssetType::Sol, 6_000),
        yield_asset: key(70),
        yield_asset_program_owner: core_id(),
        yield_asset_data: core_asset(holder),
        yield_nft_holder_wallet: paid_wallet,
        yield_record: rec,
        mpl_core_program: core_id(),
    }
}

#[test]
fn buyout_releases_the_share() {
    let ctx = buyout_ctx(record(key(70), 2_500, ExpiryCondition::Never), key(90), key(90));
    let (v, r, e) = owner_buyout_yield::handler(&ctx, 100).unwrap();
    assert_eq!(v.total_yield_allocated_bps, 3_500);
    assert!(!r.is_active);
    assert_eq!(e.buyout_price_lamports, 5_000);
    assert_eq!(e.recipient_paid, key(90));
    assert_eq!(e.share_bps_reclaimed, 2_500);
}

#[test]
fn buyout_errors() {
    let mut inactive = record(key(70), 2_500, ExpiryCondition::Never);
    inactive.is_active = false;
    assert_eq!(owner_buyout_yield::handler(&buyout_ctx(inactive, key(90), key(90)), 100).err(), Some(StripVaultError::YieldPositionInactive));

    let other_asset = record(key(71), 2_500, ExpiryCondition::Never);
    assert_eq!(owner_buyout_yield::handler(&buyout_ctx(other_asset, key(90), key(90)), 100).err(), Some(StripVaultError::InvalidYieldRecord));

    let ok = record(key(70), 2_500, ExpiryCondition::Never);
    assert_eq!(owner_buyout_yield::handler(&buyout_ctx(ok, key(90), key(91)), 100).err(), Some(StripVaultError::InvalidRecipientWallet));

    let mut not_holder = buyout_ctx(ok, key(90), key(90));
    not_holder.owner = key(61);
    assert_eq!(owner_buyout_yield::handler(&not_holder, 100).err(), Some(StripVaultError::UnauthorizedMasterDeedHolder));

    let mut bad_asset = buyout_ctx(ok, key(90), key(90));
    bad_asset.yield_asset_data = vec![];
    assert_eq!(owner_buyout_yield::handler(&bad_asset, 100).err(), Some(StripVaultError::InvalidAssetAccount));

    // an expired position has already reverted: it cannot be bought out
    let expiring = record(key(70), 2_500, ExpiryCondition::Timestamp(100));
    assert_eq!(owner_buyout_yield::handler(&buyout_ctx(expiring, key(90), key(90)), 100).err(), Some(StripVaultError::YieldPositionInactive));
    assert!(owner_buyout_yield::handler(&buyout_ctx(expiring, key(90), key(90)), 99).is_ok());
    let mut used_up = record(key(70), 2_500, ExpiryCondition::PayoutCount(2));
    used_up.payouts_received_count = 2;
    assert_eq!(owner_buyout_yield::handler(&buyout_ctx(used_up, key(90), key(90)), 0).err(), Some(StripVaultError::YieldPositionInactive));
}

// ---------------------------------------------------------------- redeem

fn redeem_ctx(allocated: u16, remaining: u64) -> OwnerRedeemPrincipal {
    OwnerRedeemPrincipal {
        owner: key(OWNER),
        vault_key: key(VAULT_KEY),
        vault: vault(PayoutAssetType::Sol, allocated),
        stock_mint_data: mint_data(6),
        stock_vault_amount: remaining,
        master_deed_asset_program_owner: core_id(),
        master_deed_asset_data: core_asset(key(OWNER)),
        mpl_core_program: core_id(),
    }
}

#[test]
fn redeem_returns_all_stock() {
    let (decimals, e) = owner_redeem_principal::handler(&redeem_ctx(0, 95_238_096)).unwrap();
    assert_eq!(decimals, Some(6));
    assert_eq!(e.stock_shares_returned, 95_238_096);
    assert_eq!(e.owner, key(OWNER));
    assert_eq!(e.stock_mint, key(1));
    let (none, e0) = owner_redeem_principal::handler(&redeem_ctx(0, 0)).unwrap();
    assert_eq!(none, None);
    assert_eq!(e0.stock_shares_returned, 0);
}

#[test]
fn redeem_errors() {
    assert_eq!(owner_redeem_principal::handler(&redeem_ctx(1, 5)).err(), Some(StripVaultError::ActiveYieldPositionsRemain));
    let mut stranger = redeem_ctx(0, 5);
    stranger.owner = key(61);
    assert_eq!(owner_redeem_principal::handler(&stranger).err(), Some(StripVaultError::UnauthorizedMasterDeedHolder));
    let mut short_mint = redeem_ctx(0, 5);
    short_mint.stock_mint_data = vec![0u8; 10];
    assert_eq!(owner_redeem_principal::handler(&short_mint).err(), Some(StripVaultError::InvalidScaledUiAmountConfig));
}

// ---------------------------------------------------------------- distribute

const PROGRAM: u8 = 99;

fn record_key(asset: [u8; 32]) -> [u8; 32] {
    Pubkey::find_program_address(
        &[b"yield_record", &key(VAULT_KEY), &asset],
        &Pubkey::new_from_array(key(PROGRAM)),
    )
    .0
    .to_bytes()
}

fn sol_entry(rec: YieldRecord, holder: [u8; 32]) -> PayoutEntry {
    PayoutEntry {
        yield_record_key: record_key(rec.yield_asset_id),
        yield_record: Some(rec),
        yield_asset: rec.yield_asset_id,
        yield_asset_program_owner: core_id(),
        yield_asset_data: core_asset(holder),
        recipient: holder,
        recipient_data: vec![],
    }
}

fn sol_distribution(allocated: u16, vault_lamports: u64, entries: Vec<PayoutEntry>) -> KeeperDistributePayout {
    let remaining_account_count = 3 * entries.len();
    KeeperDistributePayout {
        program_id: key(PROGRAM),
        vault_key: key(VAULT_KEY),
        vault: vault(PayoutAssetType::Sol, allocated),
        master_deed_asset_program_owner: core_id(),
        master_deed_asset_data: core_asset(key(OWNER)),
        master_deed_payout_account: key(OWNER),
        master_deed_payout_account_data: vec![],
        vault_payout_source_data: vec![],
        vault_lamports,
        rent_exempt_minimum: 2_000,
        mpl_core_program: core_id(),
        remaining_account_count,
        entries,
    }
}

#[test]
fn distribute_splits_by_share_and_remainder_goes_to_master_deed() {
    let entries = vec![
        sol_entry(record(key(70), 2_500, ExpiryCondition::Never), key(90)),
        sol_entry(record(key(71), 5_000, ExpiryCondition::Never), key(91)),
    ];
    let ctx = sol_distribution(7_500, 2_000 + 1_000_003, entries);
    let plan = keeper_distribute_payout::handler(&ctx, 0, 100).unwrap();
    assert_eq!(plan.event.total_payout, 1_000_003);
    assert_eq!(plan.shares, vec![250_000, 500_001]);
    assert_eq!(plan.master_deed_share, 250_002);
    assert_eq!(plan.event.master_deed_share, 250_002);
    assert_eq!(plan.event.yield_holders_count, 2);
    assert_eq!(plan.records[0].payouts_received_count, 1);
    assert_eq!(plan.records[1].payouts_received_count, 1);
    assert_eq!(plan.vault.total_yield_allocated_bps, 7_500);
    assert_eq!(plan.shares.iter().sum::<u64>() + plan.master_deed_share, plan.event.total_payout);
}

#[test]
fn distribute_handles_expiry_and_inactive_positions() {
    let mut inactive = record(key(72), 1_000, ExpiryCondition::Never);
    inactive.is_active = false;
    let entries = vec![
        // expired before this payout: released, paid nothing
        sol_entry(record(key(70), 2_000, ExpiryCondition::Timestamp(50)), key(90)),
        // last payout of a count-limited position: paid, then released
        sol_entry(record(key(71), 3_000, ExpiryCondition::PayoutCount(1)), key(91)),
        // already inactive: skipped
        sol_entry(inactive, key(92)),
    ];
    let ctx = sol_distribution(5_000, 1_000_000, entries);
    let plan = keeper_distribute_payout::handler(&ctx, 10_000, 100).unwrap();
    assert_eq!(plan.shares, vec![0, 3_000, 0]);
    assert_eq!(plan.master_deed_share, 7_000);
    assert_eq!(plan.event.yield_holders_count, 1);
    assert!(!plan.records[0].is_active);
    assert!(!plan.records[1].is_active);
    assert_eq!(plan.records[1].payouts_received_count, 1);
    assert!(!plan.records[2].is_active);
    assert_eq!(plan.vault.total_yield_allocated_bps, 0);
}

#[test]
fn distribute_refuses_a_position_named_twice() {
    let rec = record(key(70), 2_000, ExpiryCondition::PayoutCount(2));
    let entries = vec![sol_entry(rec, key(90)), sol_entry(rec, key(90))];
    let ctx = sol_distribution(2_000, 1_000_000, entries);
    assert_eq!(keeper_distribute_payout::handler(&ctx, 10_000, 0).err(), Some(StripVaultError::DuplicateYieldRecord));
}

#[test]
fn distribute_refuses_to_leave_an_active_position_out() {
    // the vault has 25% and 50% positions; naming only the first is refused
    let entries = vec![sol_entry(record(key(70), 2_500, ExpiryCondition::Never), key(90))];
    let ctx = sol_distribution(7_500, 1_000_000, entries);
    assert_eq!(keeper_distribute_payout::handler(&ctx, 10_000, 0).err(), Some(StripVaultError::MissingYieldPositions));
}

#[test]
fn distribute_refuses_accounts_not_in_triples() {
    let mut ctx = sol_distribution(2_500, 1_000_000, vec![sol_entry(record(key(70), 2_500, ExpiryCondition::Never), key(90))]);
    ctx.remaining_account_count = 4;
    assert_eq!(keeper_distribute_payout::handler(&ctx, 10_000, 0).err(), Some(StripVaultError::InvalidRemainingAccounts));
}

#[test]
fn distribute_pays_usdc_to_token_accounts_of_holders() {
    let mut e = sol_entry(record(key(70), 4_000, ExpiryCondition::Never), key(90));
    e.recipient = key(95);
    e.recipient_data = token_account(key(90), 0);
    let mut ctx = sol_distribution(4_000, 0, vec![e]);
    ctx.vault = vault(PayoutAssetType::Usdc, 4_000);
    ctx.master_deed_payout_account = key(96);
    ctx.master_deed_payout_account_data = token_account(key(OWNER), 0);
    ctx.vault_payout_source_data = token_account(key(VAULT_KEY), 5_000);
    let plan = keeper_distribute_payout::handler(&ctx, 0, 0).unwrap();
    assert_eq!(plan.event.total_payout, 5_000);
    assert_eq!(plan.shares, vec![2_000]);
    assert_eq!(plan.master_deed_share, 3_000);

    let too_much = keeper_distribute_payout::handler(&ctx, 5_001, 0);
    assert_eq!(too_much.err(), Some(StripVaultError::InsufficientPayoutBalance));

    let mut wrong_owner = ctx;
    wrong_owner.entries[0].recipient_data = token_account(key(91), 0);
    assert_eq!(keeper_distribute_payout::handler(&wrong_owner, 0, 0).err(), Some(StripVaultError::InvalidRecipientWallet));
    wrong_owner.entries[0].recipient_data = vec![0u8; 10];
    assert_eq!(keeper_distribute_payout::handler(&wrong_owner, 0, 0).err(), Some(StripVaultError::InvalidTokenAccount));

    // a frozen token account of the holder is accepted; an uninitialized one or a bad option tag is not
    let mut frozen = token_account(key(90), 0);
    frozen[108] = 2;
    wrong_owner.entries[0].recipient_data = frozen.clone();
    assert!(keeper_distribute_payout::handler(&wrong_owner, 0, 0).is_ok());
    let mut uninitialized = frozen.clone();
    uninitialized[108] = 0;
    wrong_owner.entries[0].recipient_data = uninitialized;
    assert_eq!(keeper_distribute_payout::handler(&wrong_owner, 0, 0).err(), Some(StripVaultError::InvalidTokenAccount));
    let mut bad_tag = frozen;
    bad_tag[129] = 2;
    wrong_owner.entries[0].recipient_data = bad_tag;
    assert_eq!(keeper_distribute_payout::handler(&wrong_owner, 0, 0).err(), Some(StripVaultError::InvalidTokenAccount));
}

#[test]
fn distribute_errors() {
    let good = || sol_entry(record(key(70), 2_500, ExpiryCondition::Never), key(90));

    // nothing to pay: all the vault holds is its rent
    let broke = sol_distribution(2_500, 2_000, vec![good()]);
    assert_eq!(keeper_distribute_payout::handler(&broke, 0, 0).err(), Some(StripVaultError::NoPendingHarvest));
    assert_eq!(keeper_distribute_payout::handler(&broke, 1, 0).err(), Some(StripVaultError::InsufficientPayoutBalance));

    let mut wrong_pda = good();
    wrong_pda.yield_record_key = key(1);
    let ctx = sol_distribution(2_500, 1_000_000, vec![wrong_pda]);
    assert_eq!(keeper_distribute_payout::handler(&ctx, 100, 0).err(), Some(StripVaultError::InvalidYieldRecord));

    let mut undecodable = good();
    undecodable.yield_record = None;
    let ctx = sol_distribution(2_500, 1_000_000, vec![undecodable]);
    assert_eq!(keeper_distribute_payout::handler(&ctx, 100, 0).err(), Some(StripVaultError::InvalidYieldRecord));

    let mut thief = good();
    thief.recipient = key(66);
    let ctx = sol_distribution(2_500, 1_000_000, vec![thief]);
    assert_eq!(keeper_distribute_payout::handler(&ctx, 100, 0).err(), Some(StripVaultError::InvalidRecipientWallet));

    let mut master_elsewhere = sol_distribution(2_500, 1_000_000, vec![good()]);
    master_elsewhere.master_deed_payout_account = key(67);
    assert_eq!(keeper_distribute_payout::handler(&master_elsewhere, 100, 0).err(), Some(StripVaultError::InvalidRecipientWallet));

    // shares beyond the payout: two 60% positions in a vault allocated past 100%
    let big_a = record(key(70), 6_000, ExpiryCondition::Never);
    let big_b = record(key(71), 6_000, ExpiryCondition::Never);
    let twice = sol_distribution(12_000, 1_000_000, vec![sol_entry(big_a, key(90)), sol_entry(big_b, key(91))]);
    assert_eq!(keeper_distribute_payout::handler(&twice, 100, 0).err(), Some(StripVaultError::MathOverflow));
}

#[test]
fn distribute_accounts_come_in_triples() {
    assert_eq!(keeper_distribute_payout::check_account_triples(0), Ok(()));
    assert_eq!(keeper_distribute_payout::check_account_triples(6), Ok(()));
    assert_eq!(keeper_distribute_payout::check_account_triples(4), Err(StripVaultError::InvalidRemainingAccounts));
}

#[test]
fn distribute_needs_expired_positions_still_flagged_active_named() {
    let live = record(key(70), 2_500, ExpiryCondition::Never);
    let expired = record(key(71), 1_000, ExpiryCondition::Timestamp(10));
    // naming only the live position leaves the expired one's 10% unaccounted for
    let only_live = sol_distribution(3_500, 1_000_000, vec![sol_entry(live, key(90))]);
    assert_eq!(keeper_distribute_payout::handler(&only_live, 10_000, 100).err(), Some(StripVaultError::MissingYieldPositions));
    // naming it too releases it, unpaid, to the Master Deed holder
    let both = sol_distribution(3_500, 1_000_000, vec![sol_entry(live, key(90)), sol_entry(expired, key(91))]);
    let plan = keeper_distribute_payout::handler(&both, 10_000, 100).unwrap();
    assert_eq!(plan.shares, vec![2_500, 0]);
    assert_eq!(plan.master_deed_share, 7_500);
    assert_eq!(plan.vault.total_yield_allocated_bps, 2_500);
}

#[test]
fn allocation_tracks_active_shares_over_a_history() {
    // strip 25% and 40%, buy the first back, then distribute: the vault's allocation is always
    // the sum of the shares of its active records
    let active_sum = |rs: &Vec<YieldRecord>| rs.iter().filter(|r| r.is_active).map(|r| r.share_bps).sum::<u16>();
    let mut records: Vec<YieldRecord> = Vec::new();
    let mut ctx = strip_ctx(0, key(OWNER), key(OWNER));
    let (v1, r1, _) = owner_strip_position::handler(&ctx, 2_500, ExpiryCondition::Never, 7).unwrap();
    records.push(r1);
    assert_eq!(v1.total_yield_allocated_bps, active_sum(&records));
    ctx.vault = v1;
    ctx.yield_asset = key(71);
    let (v2, r2, _) = owner_strip_position::handler(&ctx, 4_000, ExpiryCondition::PayoutCount(1), 7).unwrap();
    records.push(r2);
    assert_eq!(v2.total_yield_allocated_bps, active_sum(&records));

    let mut b = buyout_ctx(records[0], key(90), key(90));
    b.vault = v2;
    let (v3, r3, _) = owner_buyout_yield::handler(&b, 0).unwrap();
    records[0] = r3;
    assert_eq!(v3.total_yield_allocated_bps, active_sum(&records));
    assert_eq!(v3.total_yield_allocated_bps, 4_000);

    let mut d = sol_distribution(0, 1_000_000, vec![sol_entry(records[0], key(90)), sol_entry(records[1], key(91))]);
    d.vault = v3;
    d.vault.payout_asset_type = PayoutAssetType::Sol;
    let plan = keeper_distribute_payout::handler(&d, 10_000, 0).unwrap();
    assert_eq!(plan.shares, vec![0, 4_000]);
    assert_eq!(plan.vault.total_yield_allocated_bps, active_sum(&plan.records));
    assert_eq!(plan.vault.total_yield_allocated_bps, 0);
}

#[test]
fn distribution_in_any_order_without_released_positions_pays_every_active_one() {
    // strip 10%, 20% and 30%, buy the middle one back, then distribute naming the two live
    // positions in reverse order and leaving the released one out
    let active_sum = |rs: &Vec<YieldRecord>| rs.iter().filter(|r| r.is_active).map(|r| r.share_bps).sum::<u16>();
    let mut records: Vec<YieldRecord> = Vec::new();
    let mut ctx = strip_ctx(0, key(OWNER), key(OWNER));
    for (asset, bps) in [(70u8, 1_000u16), (71, 2_000), (72, 3_000)] {
        ctx.yield_asset = key(asset);
        let (v, r, _) = owner_strip_position::handler(&ctx, bps, ExpiryCondition::Never, 7).unwrap();
        records.push(r);
        ctx.vault = v;
    }
    assert_eq!(ctx.vault.total_yield_allocated_bps, 6_000);

    let mut b = buyout_ctx(records[1], key(91), key(91));
    b.yield_asset = key(71);
    b.vault = ctx.vault;
    let (v, r, _) = owner_buyout_yield::handler(&b, 0).unwrap();
    records[1] = r;
    assert_eq!(v.total_yield_allocated_bps, 4_000);

    let mut d = sol_distribution(0, 1_000_000, vec![sol_entry(records[2], key(92)), sol_entry(records[0], key(90))]);
    d.vault = v;
    d.vault.payout_asset_type = PayoutAssetType::Sol;
    let plan = keeper_distribute_payout::handler(&d, 10_000, 0).unwrap();
    assert_eq!(plan.shares, vec![3_000, 1_000]);
    assert_eq!(plan.master_deed_share, 6_000);
    assert_eq!(plan.records[0].payouts_received_count, 1);
    assert_eq!(plan.records[1].payouts_received_count, 1);
    records[2] = plan.records[0];
    records[0] = plan.records[1];
    assert_eq!(records[1].payouts_received_count, 0);
    assert_eq!(plan.vault.total_yield_allocated_bps, active_sum(&records));
    assert_eq!(plan.vault.total_yield_allocated_bps, 4_000);
}
