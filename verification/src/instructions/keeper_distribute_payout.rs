use vstd::prelude::*;
use crate::errors::StripVaultError;
use crate::events::PayoutDistributedEvent;
use crate::state::vault::{PayoutAssetType, Vault};
use crate::state::yield_record::{
    record_follows, active_bps, allocated_bps, lemma_active_bps_nonneg, lemma_active_bps_push, YieldRecord,
};
use crate::utils::accounts::{
    find_program_address, key_eq, program_address, read_token_account, token_account_owner_amount,
};
use crate::utils::core_asset::{core_asset_owner, read_core_asset_owner};
use crate::utils::math::{calculate_yield_share, lemma_share_bounded, yield_share, BPS_DENOMINATOR};

verus! {

/// One yield position named in a distribution: its record, its Yield NFT and the account that
/// is to receive its share.
#[derive(Debug)]
pub struct PayoutEntry {
    /// Address of the yield record account
    pub yield_record_key: [u8; 32],
    /// The yield record as stored, or `None` where the account does not hold one
    pub yield_record: Option<YieldRecord>,
    /// Address of the Yield NFT asset
    pub yield_asset: [u8; 32],
    /// The program that owns the Yield NFT account
    pub yield_asset_program_owner: [u8; 32],
    /// The Yield NFT account data
    pub yield_asset_data: Vec<u8>,
    /// The account that receives the share (a wallet for SOL, a token account for USDC)
    pub recipient: [u8; 32],
    /// The recipient account's data
    pub recipient_data: Vec<u8>,
}

/// The accounts of a distribution, by address, with the state and data the decision reads.
#[derive(Debug)]
pub struct KeeperDistributePayout {
    /// This program's id, under which yield record addresses are derived
    pub program_id: [u8; 32],
    /// The vault PDA
    pub vault_key: [u8; 32],
    pub vault: Vault,
    /// The program that owns the Master Deed account
    pub master_deed_asset_program_owner: [u8; 32],
    /// The Master Deed account data
    pub master_deed_asset_data: Vec<u8>,
    /// The account that receives the Master Deed holder's remainder
    pub master_deed_payout_account: [u8; 32],
    /// That account's data
    pub master_deed_payout_account_data: Vec<u8>,
    /// Data of the vault's payout holding account (read for USDC)
    pub vault_payout_source_data: Vec<u8>,
    /// Lamports held by the vault PDA (paid out for SOL)
    pub vault_lamports: u64,
    /// Lamports the vault PDA must keep to stay rent exempt
    pub rent_exempt_minimum: u64,
    /// The Metaplex Core program
    pub mpl_core_program: [u8; 32],
    /// How many accounts were passed to name yield positions (three per position)
    pub remaining_account_count: usize,
    /// The yield positions named, one per triple of those accounts
    pub entries: Vec<PayoutEntry>,
}

/// What the distribution reads from the data of one entry's accounts.
#[derive(Clone, Copy, Debug)]
pub struct EntryReads {
    /// The yield record address derived from the vault and the Yield NFT
    pub derived_record_key: Option<[u8; 32]>,
    /// The Yield NFT's owner
    pub yield_nft_owner: Option<[u8; 32]>,
    /// Owner and amount of the recipient, read as a token account
    pub recipient_token: Option<([u8; 32], u64)>,
}

/// What the distribution reads from the data of the vault-wide accounts.
#[derive(Clone, Copy, Debug)]
pub struct DistributionReads {
    /// The Master Deed's owner
    pub master_deed_owner: Option<[u8; 32]>,
    /// Owner and amount of the Master Deed payout account, read as a token account
    pub master_deed_payout_token: Option<([u8; 32], u64)>,
    /// Owner and amount of the vault's payout holding account, read as a token account
    pub payout_source_token: Option<([u8; 32], u64)>,
}

/// The running totals of a distribution.
#[derive(Clone, Copy, Debug)]
pub struct PayoutProgress {
    /// The vault's allocated basis points, less the positions that expired
    pub total_yield_allocated_bps: u16,
    /// Paid to yield holders so far
    pub distributed: u64,
    /// Yield holders paid so far
    pub holders: u32,
}

/// What a successful distribution does: the new vault state; for each entry, in order, its
/// record after that entry was processed and the share paid to its recipient (none where 0);
/// the remainder paid to the Master Deed holder; and the event.
#[derive(Debug)]
pub struct DistributionPlan {
    pub vault: Vault,
    pub records: Vec<YieldRecord>,
    pub shares: Vec<u64>,
    pub master_deed_share: u64,
    pub event: PayoutDistributedEvent,
}

/// Checks that the accounts naming the yield positions come in triples: a yield record, its
/// Yield NFT and the account that receives its share.
pub fn check_account_triples(count: usize) -> (r: Result<(), StripVaultError>)
    ensures
        r is Ok <==> count % 3 == 0,
        r is Err ==> r == Err::<(), StripVaultError>(StripVaultError::InvalidRemainingAccounts),
{
    if count % 3 != 0 {
        return Err(StripVaultError::InvalidRemainingAccounts);
    }
    Ok(())
}

/// The sum of a sequence of amounts.
pub open spec fn seq_sum(s: Seq<u64>) -> int
    decreases s.len(),
{
    if s.len() == 0 {
        0
    } else {
        seq_sum(s.drop_last()) + s.last()
    }
}

/// `a - b`, or 0 where `b` exceeds `a`.
pub open spec fn sat_sub_u16(a: u16, b: u16) -> u16 {
    if a >= b {
        (a - b) as u16
    } else {
        0
    }
}

/// Whether a payout account belongs to `owner`: for SOL it is the owner's wallet itself, for
/// USDC a token account owned by them.
pub open spec fn recipient_check(
    asset: PayoutAssetType,
    account: [u8; 32],
    token: Option<([u8; 32], u64)>,
    owner: [u8; 32],
) -> Result<(), StripVaultError> {
    match asset {
        PayoutAssetType::Sol => if account != owner {
            Err(StripVaultError::InvalidRecipientWallet)
        } else {
            Ok(())
        },
        PayoutAssetType::Usdc => match token {
            None => Err(StripVaultError::InvalidTokenAccount),
            Some((token_owner, _)) => if token_owner != owner {
                Err(StripVaultError::InvalidRecipientWallet)
            } else {
                Ok(())
            },
        },
    }
}

/// Checks that a payout account belongs to `owner`, as `recipient_check` says.
pub fn check_recipient(
    asset: PayoutAssetType,
    account: &[u8; 32],
    token: Option<([u8; 32], u64)>,
    owner: &[u8; 32],
) -> (r: Result<(), StripVaultError>)
    ensures
        r == recipient_check(asset, *account, token, *owner),
{
    match asset {
        PayoutAssetType::Sol => if !key_eq(account, owner) {
            Err(StripVaultError::InvalidRecipientWallet)
        } else {
            Ok(())
        },
        PayoutAssetType::Usdc => match token {
            None => Err(StripVaultError::InvalidTokenAccount),
            Some((token_owner, _)) => if !key_eq(&token_owner, owner) {
                Err(StripVaultError::InvalidRecipientWallet)
            } else {
                Ok(())
            },
        },
    }
}

/// What processing one entry does: the new totals, the entry's record afterwards and the share
/// paid to its recipient.
pub open spec fn entry_step(
    ctx: KeeperDistributePayout,
    entry: PayoutEntry,
    reads: EntryReads,
    payout: u64,
    now: i64,
    p: PayoutProgress,
) -> Result<(PayoutProgress, YieldRecord, u64), StripVaultError> {
    if reads.derived_record_key != Some(entry.yield_record_key) {
        Err(StripVaultError::InvalidYieldRecord)
    } else {
        match entry.yield_record {
            None => Err(StripVaultError::InvalidYieldRecord),
            Some(rec) => if rec.vault != ctx.vault_key || rec.yield_asset_id != entry.yield_asset {
                Err(StripVaultError::InvalidYieldRecord)
            } else if !rec.is_active {
                Ok((p, rec, 0u64))
            } else if rec.expired_at(now) {
                Ok(
                    (
                        PayoutProgress {
                            total_yield_allocated_bps: sat_sub_u16(
                                p.total_yield_allocated_bps,
                                rec.share_bps,
                            ),
                            ..p
                        },
                        YieldRecord { is_active: false, ..rec },
                        0u64,
                    ),
                )
            } else if entry.yield_asset_program_owner != ctx.mpl_core_program {
                Err(StripVaultError::InvalidAssetAccount)
            } else {
                match reads.yield_nft_owner {
                    None => Err(StripVaultError::InvalidAssetAccount),
                    Some(owner) => match recipient_check(
                        ctx.vault.payout_asset_type,
                        entry.recipient,
                        reads.recipient_token,
                        owner,
                    ) {
                        Err(e) => Err(e),
                        Ok(_) => {
                            let share = yield_share(payout as int, rec.share_bps as int);
                            if rec.share_bps > BPS_DENOMINATOR {
                                Err(StripVaultError::ExceedsMaxYieldAllocation)
                            } else if p.distributed + share > u64::MAX {
                                Err(StripVaultError::MathOverflow)
                            } else if rec.payouts_received_count + 1 > u32::MAX {
                                Err(StripVaultError::MathOverflow)
                            } else {
                                let paid = YieldRecord {
                                    payouts_received_count: (rec.payouts_received_count + 1) as u32,
                                    ..rec
                                };
                                let expired = paid.expired_at(now);
                                Ok(
                                    (
                                        PayoutProgress {
                                            total_yield_allocated_bps: if expired {
                                                sat_sub_u16(p.total_yield_allocated_bps, rec.share_bps)
                                            } else {
                                                p.total_yield_allocated_bps
                                            },
                                            distributed: (p.distributed + share) as u64,
                                            holders: (p.holders + 1) as u32,
                                        },
                                        YieldRecord { is_active: !expired, ..paid },
                                        share as u64,
                                    ),
                                )
                            }
                        },
                    },
                }
            },
        }
    }
}

/// The totals, records and shares after the first `n` entries, or the first error.
pub open spec fn run_entries(
    ctx: KeeperDistributePayout,
    reads: Seq<EntryReads>,
    payout: u64,
    now: i64,
    n: nat,
) -> Result<(PayoutProgress, Seq<YieldRecord>, Seq<u64>), StripVaultError>
    decreases n,
{
    if n == 0 {
        Ok(
            (
                PayoutProgress {
                    total_yield_allocated_bps: ctx.vault.total_yield_allocated_bps,
                    distributed: 0,
                    holders: 0,
                },
                Seq::<YieldRecord>::empty(),
                Seq::<u64>::empty(),
            ),
        )
    } else {
        let i = n - 1;
        match run_entries(ctx, reads, payout, now, (n - 1) as nat) {
            Err(e) => Err(e),
            Ok((p, records, shares)) => match entry_step(
                ctx,
                ctx.entries@[i],
                reads[i],
                payout,
                now,
                p,
            ) {
                Err(e) => Err(e),
                Ok((p2, rec, share)) => Ok((p2, records.push(rec), shares.push(share))),
            },
        }
    }
}

/// No yield record account is named twice.
pub open spec fn record_keys_distinct(entries: Seq<PayoutEntry>) -> bool {
    forall|i: int, j: int|
        0 <= i < j < entries.len() ==> entries[i].yield_record_key != entries[j].yield_record_key
}

/// The basis points held by a named record, as stored before the distribution.
pub open spec fn named_bps(entry: PayoutEntry) -> int {
    match entry.yield_record {
        Some(r) => allocated_bps(r),
        None => 0,
    }
}

/// The basis points held by the active records named, as stored before the distribution.
pub open spec fn named_active_bps(entries: Seq<PayoutEntry>) -> int
    decreases entries.len(),
{
    if entries.len() == 0 {
        0
    } else {
        named_active_bps(entries.drop_last()) + named_bps(entries.last())
    }
}

/// Checks that no yield record account is named twice.
fn check_keys_distinct(entries: &Vec<PayoutEntry>) -> (r: bool)
    ensures
        r == record_keys_distinct(entries@),
{
    let n = entries.len();
    let mut j: usize = 0;
    while j < n
        invariant
            n == entries@.len(),
            j <= n,
            forall|a: int, b: int|
                0 <= a < b < j ==> entries@[a].yield_record_key != entries@[b].yield_record_key,
        decreases n - j,
    {
        let mut i: usize = 0;
        while i < j
            invariant
                n == entries@.len(),
                j < n,
                i <= j,
                forall|a: int, b: int|
                    0 <= a < b < j ==> entries@[a].yield_record_key != entries@[b].yield_record_key,
                forall|a: int| 0 <= a < i ==> entries@[a].yield_record_key != entries@[j as int].yield_record_key,
            decreases j - i,
        {
            if key_eq(&entries[i].yield_record_key, &entries[j].yield_record_key) {
                return false;
            }
            i = i + 1;
        }
        j = j + 1;
    }
    true
}

/// Sums the basis points held by the active records named, as `named_active_bps` says.
fn sum_named_active_bps(entries: &Vec<PayoutEntry>) -> (r: u64)
    requires
        entries@.len() <= u32::MAX,
    ensures
        r == named_active_bps(entries@),
{
    let n = entries.len();
    let mut sum: u64 = 0;
    let mut i: usize = 0;
    while i < n
        invariant
            n == entries@.len(),
            n <= u32::MAX,
            i <= n,
            sum == named_active_bps(entries@.take(i as int)),
            sum <= i * 0x1_0000,
        decreases n - i,
    {
        assert(entries@.take((i + 1) as int).drop_last() =~= entries@.take(i as int));
        match entries[i].yield_record {
            Some(r) => if r.is_active {
                sum = sum + r.share_bps as u64;
            },
            None => {},
        }
        i = i + 1;
    }
    assert(entries@.take(n as int) =~= entries@);
    sum
}

/// The amount to distribute: `total_payout_amount` if given, else all that the payout holding
/// account can pay (its token balance for USDC; the vault's lamports above the rent-exempt
/// minimum for SOL).
pub open spec fn payout_amount_result(
    ctx: KeeperDistributePayout,
    reads: DistributionReads,
    total_payout_amount: u64,
) -> Result<u64, StripVaultError> {
    let available: int = match ctx.vault.payout_asset_type {
        PayoutAssetType::Usdc => match reads.payout_source_token {
            Some((_, amount)) => amount as int,
            None => 0,
        },
        PayoutAssetType::Sol => if ctx.vault_lamports >= ctx.rent_exempt_minimum {
            ctx.vault_lamports - ctx.rent_exempt_minimum
        } else {
            0
        },
    };
    let payout: int = if total_payout_amount > 0 {
        total_payout_amount as int
    } else {
        available
    };
    if ctx.vault.payout_asset_type == PayoutAssetType::Usdc && reads.payout_source_token is None {
        Err(StripVaultError::InvalidTokenAccount)
    } else if payout == 0 {
        Err(StripVaultError::NoPendingHarvest)
    } else if available < payout {
        Err(StripVaultError::InsufficientPayoutBalance)
    } else {
        Ok(payout as u64)
    }
}

/// What a distribution decides for every input, given what was read from the accounts' data:
/// the new vault state, each entry's record and share, the Master Deed holder's remainder and
/// the event.
pub open spec fn distribution_result(
    ctx: KeeperDistributePayout,
    reads: DistributionReads,
    entry_reads: Seq<EntryReads>,
    total_payout_amount: u64,
    now: i64,
) -> Result<(Vault, Seq<YieldRecord>, Seq<u64>, u64, PayoutDistributedEvent), StripVaultError> {
    if ctx.master_deed_asset_program_owner != ctx.mpl_core_program {
        Err(StripVaultError::InvalidAssetAccount)
    } else {
        match reads.master_deed_owner {
            None => Err(StripVaultError::InvalidAssetAccount),
            Some(master_owner) => match recipient_check(
                ctx.vault.payout_asset_type,
                ctx.master_deed_payout_account,
                reads.master_deed_payout_token,
                master_owner,
            ) {
                Err(e) => Err(e),
                Ok(_) => match payout_amount_result(ctx, reads, total_payout_amount) {
                    Err(e) => Err(e),
                    Ok(payout) => if ctx.remaining_account_count % 3 != 0 {
                        Err(StripVaultError::InvalidRemainingAccounts)
                    } else if !record_keys_distinct(ctx.entries@) {
                        Err(StripVaultError::DuplicateYieldRecord)
                    } else {
                        match run_entries(
                        ctx,
                        entry_reads,
                        payout,
                        now,
                        ctx.entries@.len(),
                    ) {
                        Err(e) => Err(e),
                        Ok((p, records, shares)) => if named_active_bps(ctx.entries@)
                            < ctx.vault.total_yield_allocated_bps {
                            Err(StripVaultError::MissingYieldPositions)
                        } else if p.distributed > payout {
                            Err(StripVaultError::MathOverflow)
                        } else {
                            Ok(
                                (
                                    Vault {
                                        total_yield_allocated_bps: p.total_yield_allocated_bps,
                                        ..ctx.vault
                                    },
                                    records,
                                    shares,
                                    (payout - p.distributed) as u64,
                                    PayoutDistributedEvent {
                                        vault: ctx.vault_key,
                                        total_payout: payout,
                                        master_deed_share: (payout - p.distributed) as u64,
                                        yield_holders_count: p.holders,
                                    },
                                ),
                            )
                        },
                    }
                    },
                },
            },
        }
    }
}

/// Whether an executable plan (or error) is the one the specification gives.
pub open spec fn plan_agrees(
    r: Result<DistributionPlan, StripVaultError>,
    s: Result<(Vault, Seq<YieldRecord>, Seq<u64>, u64, PayoutDistributedEvent), StripVaultError>,
) -> bool {
    match (r, s) {
        (Ok(plan), Ok((v, records, shares, m, e))) => {
            &&& plan.vault == v
            &&& plan.records@ == records
            &&& plan.shares@ == shares
            &&& plan.master_deed_share == m
            &&& plan.event == e
        },
        (Err(e1), Err(e2)) => e1 == e2,
        _ => false,
    }
}

/// What the handler reads from the data of entry `i`'s accounts.
pub open spec fn expected_entry_reads(ctx: KeeperDistributePayout, i: int) -> EntryReads {
    let entry = ctx.entries@[i];
    EntryReads {
        derived_record_key: program_address(
            seq![YieldRecord::SEED_PREFIX@, ctx.vault_key@, entry.yield_asset@],
            ctx.program_id,
        ),
        yield_nft_owner: core_asset_owner(entry.yield_asset_data@),
        recipient_token: token_account_owner_amount(entry.recipient_data@),
    }
}

/// What the handler reads from the data of the vault-wide accounts.
pub open spec fn expected_reads(ctx: KeeperDistributePayout) -> DistributionReads {
    DistributionReads {
        master_deed_owner: core_asset_owner(ctx.master_deed_asset_data@),
        master_deed_payout_token: token_account_owner_amount(ctx.master_deed_payout_account_data@),
        payout_source_token: token_account_owner_amount(ctx.vault_payout_source_data@),
    }
}

/// Once a prefix of the entries fails, the whole run fails with the same error.
proof fn lemma_run_error_sticks(
    ctx: KeeperDistributePayout,
    reads: Seq<EntryReads>,
    payout: u64,
    now: i64,
    k: nat,
    n: nat,
)
    requires
        k <= n,
        run_entries(ctx, reads, payout, now, k) is Err,
    ensures
        run_entries(ctx, reads, payout, now, n) == run_entries(ctx, reads, payout, now, k),
    decreases n - k,
{
    if k < n {
        lemma_run_error_sticks(ctx, reads, payout, now, k, (n - 1) as nat);
    }
}

/// A nonzero share is only ever paid as the position's rounded-down cut of the payout, to an
/// account of the Yield NFT's current owner, and is counted on the record.
pub open spec fn share_is_due(
    ctx: KeeperDistributePayout,
    entry: PayoutEntry,
    reads: EntryReads,
    record: YieldRecord,
    share: u64,
    payout: u64,
) -> bool {
    share > 0 ==> {
        &&& share == yield_share(payout as int, record.share_bps as int)
        &&& record.payouts_received_count >= 1
        &&& entry.yield_asset_program_owner == ctx.mpl_core_program
        &&& reads.yield_nft_owner matches Some(owner) && recipient_check(
            ctx.vault.payout_asset_type,
            entry.recipient,
            reads.recipient_token,
            owner,
        ) is Ok
    }
}

/// What a distribution did with one named record: it keeps its share and is active afterwards
/// only if it was before; an active, unexpired record was paid its cut of the payout and had
/// the payout counted; any other record was paid nothing and its count is unchanged.
pub open spec fn entry_settled(
    entry: PayoutEntry,
    record: YieldRecord,
    share: u64,
    payout: u64,
    now: i64,
) -> bool {
    match entry.yield_record {
        None => false,
        Some(rec) => {
            &&& record_follows(rec, record)
            &&& if rec.is_active && !rec.expired_at(now) {
                &&& share == yield_share(payout as int, rec.share_bps as int)
                &&& record.payouts_received_count == rec.payouts_received_count + 1
            } else {
                &&& share == 0
                &&& record.payouts_received_count == rec.payouts_received_count
            }
        },
    }
}

/// A successful run over `n` entries records one record and one share per entry, has paid out
/// exactly the sum of the shares to at most `n` holders, and has not raised the allocation.
pub proof fn lemma_run_shape(
    ctx: KeeperDistributePayout,
    reads: Seq<EntryReads>,
    payout: u64,
    now: i64,
    n: nat,
)
    requires
        run_entries(ctx, reads, payout, now, n) is Ok,
    ensures
        ({
            let (p, records, shares) = run_entries(ctx, reads, payout, now, n)->Ok_0;
            &&& records.len() == n
            &&& shares.len() == n
            &&& p.distributed == seq_sum(shares)
            &&& p.holders <= n
            &&& p.total_yield_allocated_bps <= ctx.vault.total_yield_allocated_bps
            &&& forall|i: int|
                0 <= i < n ==> #[trigger] share_is_due(
                    ctx,
                    ctx.entries@[i],
                    reads[i],
                    records[i],
                    shares[i],
                    payout,
                )
            &&& forall|i: int|
                0 <= i < n ==> #[trigger] entry_settled(
                    ctx.entries@[i],
                    records[i],
                    shares[i],
                    payout,
                    now,
                )
        }),
    decreases n,
{
    if n > 0 {
        lemma_run_shape(ctx, reads, payout, now, (n - 1) as nat);
        let (p, records, shares) = run_entries(ctx, reads, payout, now, (n - 1) as nat)->Ok_0;
        let (p2, records2, shares2) = run_entries(ctx, reads, payout, now, n)->Ok_0;
        assert(shares2.drop_last() =~= shares);
        assert forall|i: int| 0 <= i < n implies #[trigger] share_is_due(
            ctx,
            ctx.entries@[i],
            reads[i],
            records2[i],
            shares2[i],
            payout,
        ) by {
            if i < n - 1 {
                assert(records2[i] == records[i]);
                assert(shares2[i] == shares[i]);
            }
        }
        assert forall|i: int| 0 <= i < n implies #[trigger] entry_settled(
            ctx.entries@[i],
            records2[i],
            shares2[i],
            payout,
            now,
        ) by {
            if i < n - 1 {
                assert(records2[i] == records[i]);
                assert(shares2[i] == shares[i]);
            }
        }
    }
}

/// Processes one entry as `entry_step` says: a record that is inactive is skipped, one that has
/// expired is deactivated and its share released from the vault's allocation, and an active one
/// pays its share of the payout to its recipient, who must own the Yield NFT, counts the payout,
/// and is deactivated if that payout was its last.
pub fn apply_payout_entry(
    ctx: &KeeperDistributePayout,
    entry: &PayoutEntry,
    reads: &EntryReads,
    payout: u64,
    now: i64,
    p: PayoutProgress,
) -> (r: Result<(PayoutProgress, YieldRecord, u64), StripVaultError>)
    requires
        p.holders < u32::MAX,
    ensures
        r == entry_step(*ctx, *entry, *reads, payout, now, p),
{
    match reads.derived_record_key {
        Some(k) => if !key_eq(&k, &entry.yield_record_key) {
            return Err(StripVaultError::InvalidYieldRecord);
        },
        None => return Err(StripVaultError::InvalidYieldRecord),
    }
    let mut rec = match entry.yield_record {
        Some(r) => r,
        None => return Err(StripVaultError::InvalidYieldRecord),
    };
    if !key_eq(&rec.vault, &ctx.vault_key) || !key_eq(&rec.yield_asset_id, &entry.yield_asset) {
        return Err(StripVaultError::InvalidYieldRecord);
    }
    if !rec.is_active {
        return Ok((p, rec, 0));
    }
    let mut progress = p;
    if rec.is_expired(now) {
        rec.is_active = false;
        progress.total_yield_allocated_bps = progress.total_yield_allocated_bps.saturating_sub(rec.share_bps);
        return Ok((progress, rec, 0));
    }
    if !key_eq(&entry.yield_asset_program_owner, &ctx.mpl_core_program) {
        return Err(StripVaultError::InvalidAssetAccount);
    }
    let nft_owner = match reads.yield_nft_owner {
        Some(o) => o,
        None => return Err(StripVaultError::InvalidAssetAccount),
    };
    match check_recipient(ctx.vault.payout_asset_type, &entry.recipient, reads.recipient_token, &nft_owner) {
        Err(e) => return Err(e),
        Ok(_) => {},
    }
    let share_amount = match calculate_yield_share(payout, rec.share_bps) {
        Ok(s) => s,
        Err(e) => return Err(e),
    };
    proof {
        lemma_share_bounded(payout as int, rec.share_bps as int);
    }
    progress.distributed = match progress.distributed.checked_add(share_amount) {
        Some(d) => d,
        None => return Err(StripVaultError::MathOverflow),
    };
    progress.holders = progress.holders + 1;
    rec.payouts_received_count = match rec.payouts_received_count.checked_add(1) {
        Some(c) => c,
        None => return Err(StripVaultError::MathOverflow),
    };
    if rec.is_expired(now) {
        rec.is_active = false;
        progress.total_yield_allocated_bps = progress.total_yield_allocated_bps.saturating_sub(rec.share_bps);
    }
    Ok((progress, rec, share_amount))
}

/// Decides the amount to distribute, as `payout_amount_result` says.
fn decide_payout_amount(
    ctx: &KeeperDistributePayout,
    reads: &DistributionReads,
    total_payout_amount: u64,
) -> (r: Result<u64, StripVaultError>)
    ensures
        r == payout_amount_result(*ctx, *reads, total_payout_amount),
{
    let available: u64 = match ctx.vault.payout_asset_type {
        PayoutAssetType::Usdc => match reads.payout_source_token {
            Some((_, amount)) => amount,
            None => return Err(StripVaultError::InvalidTokenAccount),
        },
        PayoutAssetType::Sol => ctx.vault_lamports.saturating_sub(ctx.rent_exempt_minimum),
    };
    let payout = if total_payout_amount > 0 {
        total_payout_amount
    } else {
        available
    };
    if payout == 0 {
        return Err(StripVaultError::NoPendingHarvest);
    }
    if available < payout {
        return Err(StripVaultError::InsufficientPayoutBalance);
    }
    Ok(payout)
}

/// Decides a distribution once the accounts' data has been read: the Master Deed must be a
/// Core asset whose owner controls the remainder account; the payout must be positive and
/// covered by the holding account; the positions must be named in triples of accounts, each
/// record at most once; each entry is processed in turn as `apply_payout_entry` does; the
/// records named that are still flagged active must hold at least the vault's whole
/// allocation, so that no active position is left out; and the Master Deed holder receives
/// what the yield holders did not.
///
/// The allocation still counts a position that has expired but was not yet released, and from
/// the accounts named alone an expired position left out cannot be told from a live one left
/// out. So every position still flagged active must be named, expired or not: naming an
/// expired one releases its share to the Master Deed holder and pays it nothing.
pub fn decide_distribution(
    ctx: &KeeperDistributePayout,
    reads: &DistributionReads,
    entry_reads: &Vec<EntryReads>,
    total_payout_amount: u64,
    now: i64,
) -> (r: Result<DistributionPlan, StripVaultError>)
    requires
        entry_reads@.len() == ctx.entries@.len(),
        ctx.entries@.len() <= u32::MAX,
    ensures
        plan_agrees(r, distribution_result(*ctx, *reads, entry_reads@, total_payout_amount, now)),
{
    if !key_eq(&ctx.master_deed_asset_program_owner, &ctx.mpl_core_program) {
        return Err(StripVaultError::InvalidAssetAccount);
    }
    let master_owner = match reads.master_deed_owner {
        Some(o) => o,
        None => return Err(StripVaultError::InvalidAssetAccount),
    };
    match check_recipient(
        ctx.vault.payout_asset_type,
        &ctx.master_deed_payout_account,
        reads.master_deed_payout_token,
        &master_owner,
    ) {
        Err(e) => return Err(e),
        Ok(_) => {},
    }
    let payout = match decide_payout_amount(ctx, reads, total_payout_amount) {
        Ok(p) => p,
        Err(e) => return Err(e),
    };
    if let Err(e) = check_account_triples(ctx.remaining_account_count) {
        return Err(e);
    }
    if !check_keys_distinct(&ctx.entries) {
        return Err(StripVaultError::DuplicateYieldRecord);
    }
    let n = ctx.entries.len();
    let mut progress = PayoutProgress {
        total_yield_allocated_bps: ctx.vault.total_yield_allocated_bps,
        distributed: 0,
        holders: 0,
    };
    let mut records: Vec<YieldRecord> = Vec::new();
    let mut shares: Vec<u64> = Vec::new();
    let mut i: usize = 0;
    while i < n
        invariant
            i <= n,
            n == ctx.entries@.len(),
            n <= u32::MAX,
            entry_reads@.len() == n,
            ctx.master_deed_asset_program_owner == ctx.mpl_core_program,
            reads.master_deed_owner == Some(master_owner),
            recipient_check(
                ctx.vault.payout_asset_type,
                ctx.master_deed_payout_account,
                reads.master_deed_payout_token,
                master_owner,
            ) == Ok::<(), StripVaultError>(()),
            payout_amount_result(*ctx, *reads, total_payout_amount) == Ok::<u64, StripVaultError>(payout),
            ctx.remaining_account_count % 3 == 0,
            record_keys_distinct(ctx.entries@),
            run_entries(*ctx, entry_reads@, payout, now, i as nat) == Ok::<
                (PayoutProgress, Seq<YieldRecord>, Seq<u64>),
                StripVaultError,
            >((progress, records@, shares@)),
        decreases n - i,
    {
        proof {
            lemma_run_shape(*ctx, entry_reads@, payout, now, i as nat);
        }
        match apply_payout_entry(ctx, &ctx.entries[i], &entry_reads[i], payout, now, progress) {
            Err(e) => {
                proof {
                    assert(run_entries(*ctx, entry_reads@, payout, now, (i + 1) as nat)
                        == Err::<(PayoutProgress, Seq<YieldRecord>, Seq<u64>), StripVaultError>(e));
                    lemma_run_error_sticks(*ctx, entry_reads@, payout, now, (i + 1) as nat, n as nat);
                }
                return Err(e);
            },
            Ok((p2, rec, share)) => {
                progress = p2;
                records.push(rec);
                shares.push(share);
            },
        }
        i = i + 1;
    }
    if sum_named_active_bps(&ctx.entries) < ctx.vault.total_yield_allocated_bps as u64 {
        return Err(StripVaultError::MissingYieldPositions);
    }
    let master_deed_share = match payout.checked_sub(progress.distributed) {
        Some(m) => m,
        None => return Err(StripVaultError::MathOverflow),
    };
    let mut vault = ctx.vault;
    vault.total_yield_allocated_bps = progress.total_yield_allocated_bps;
    let event = PayoutDistributedEvent {
        vault: ctx.vault_key,
        total_payout: payout,
        master_deed_share,
        yield_holders_count: progress.holders,
    };
    Ok(DistributionPlan { vault, records, shares, master_deed_share, event })
}

/// Splits a payout between the active Yield NFT holders named in `ctx.entries` and the Master
/// Deed holder: reads the owners and token accounts with Metaplex Core and anchor-spl, derives
/// each yield record's address, and decides as `decide_distribution` does. On success the caller
/// pays each nonzero share to its entry's recipient and the remainder to the Master Deed payout
/// account, stores each entry's record in order and the vault, and emits the event.
pub fn handler(
    ctx: &KeeperDistributePayout,
    total_payout_amount: u64,
    now: i64,
) -> (r: Result<DistributionPlan, StripVaultError>)
    requires
        ctx.entries@.len() <= u32::MAX,
    ensures
        plan_agrees(
            r,
            distribution_result(
                *ctx,
                expected_reads(*ctx),
                Seq::new(ctx.entries@.len(), |i: int| expected_entry_reads(*ctx, i)),
                total_payout_amount,
                now,
            ),
        ),
{
    let reads = DistributionReads {
        master_deed_owner: read_core_asset_owner(ctx.master_deed_asset_data.as_slice()),
        master_deed_payout_token: read_token_account(ctx.master_deed_payout_account_data.as_slice()),
        payout_source_token: read_token_account(ctx.vault_payout_source_data.as_slice()),
    };
    let seed = YieldRecord::SEED_PREFIX;
    let mut entry_reads: Vec<EntryReads> = Vec::new();
    let mut i: usize = 0;
    while i < ctx.entries.len()
        invariant
            i <= ctx.entries@.len(),
            seed == YieldRecord::SEED_PREFIX,
            entry_reads@.len() == i,
            forall|j: int| 0 <= j < i ==> entry_reads@[j] == expected_entry_reads(*ctx, j),
        decreases ctx.entries@.len() - i,
    {
        let entry = &ctx.entries[i];
        let derived = find_program_address(
            seed.as_slice(),
            ctx.vault_key.as_slice(),
            entry.yield_asset.as_slice(),
            &ctx.program_id,
        );
        let owner = read_core_asset_owner(entry.yield_asset_data.as_slice());
        let token = read_token_account(entry.recipient_data.as_slice());
        entry_reads.push(EntryReads { derived_record_key: derived, yield_nft_owner: owner, recipient_token: token });
        i = i + 1;
    }
    assert(entry_reads@ =~= Seq::new(ctx.entries@.len(), |i: int| expected_entry_reads(*ctx, i)));
    decide_distribution(ctx, &reads, &entry_reads, total_payout_amount, now)
}

/// A successful distribution pays out exactly the payout, and only to holders: the yield holders' shares and the
/// Master Deed holder's remainder add up to it, the payout is covered by the payout holding
/// account, each entry gets one record and one share, the vault's allocation never grows, and
/// every nonzero share is the position's cut paid to an account of the Yield NFT's owner.
pub proof fn lemma_distribution_conserves_payout(
    ctx: KeeperDistributePayout,
    reads: DistributionReads,
    entry_reads: Seq<EntryReads>,
    total_payout_amount: u64,
    now: i64,
)
    requires
        distribution_result(ctx, reads, entry_reads, total_payout_amount, now) is Ok,
    ensures
        ({
            let (v, records, shares, master_share, event) = distribution_result(
                ctx,
                reads,
                entry_reads,
                total_payout_amount,
                now,
            )->Ok_0;
            &&& seq_sum(shares) + master_share == event.total_payout
            &&& event.master_deed_share == master_share
            &&& payout_amount_result(ctx, reads, total_payout_amount) == Ok::<u64, StripVaultError>(event.total_payout)
            &&& records.len() == ctx.entries@.len()
            &&& shares.len() == ctx.entries@.len()
            &&& event.yield_holders_count <= ctx.entries@.len()
            &&& v.total_yield_allocated_bps <= ctx.vault.total_yield_allocated_bps
            &&& (ctx.vault.wf() ==> v.wf())
            &&& record_keys_distinct(ctx.entries@)
            &&& named_active_bps(ctx.entries@) >= ctx.vault.total_yield_allocated_bps
            &&& forall|i: int|
                0 <= i < ctx.entries@.len() ==> #[trigger] share_is_due(
                    ctx,
                    ctx.entries@[i],
                    entry_reads[i],
                    records[i],
                    shares[i],
                    event.total_payout,
                )
        }),
{
    let payout = payout_amount_result(ctx, reads, total_payout_amount)->Ok_0;
    lemma_run_shape(ctx, entry_reads, payout, now, ctx.entries@.len());
}

pub proof fn lemma_named_prefix_step(entries: Seq<PayoutEntry>, k: int)
    requires
        0 <= k < entries.len(),
    ensures
        named_active_bps(entries.take(k + 1)) == named_active_bps(entries.take(k)) + named_bps(
            entries[k],
        ),
{
    assert(entries.take(k + 1).drop_last() =~= entries.take(k));
}

proof fn lemma_named_prefix_bounded(entries: Seq<PayoutEntry>, k: int)
    requires
        0 <= k <= entries.len(),
    ensures
        named_active_bps(entries.take(k)) <= named_active_bps(entries),
    decreases entries.len() - k,
{
    if k == entries.len() {
        assert(entries.take(k) =~= entries);
    } else {
        lemma_named_prefix_step(entries, k);
        lemma_named_prefix_bounded(entries, k + 1);
    }
}

/// Over the first `k` entries, the running allocation is what the records processed so far hold
/// plus what the named records not yet processed held, provided the allocation started as what
/// the named records held.
proof fn lemma_run_tracks_active_shares(
    ctx: KeeperDistributePayout,
    reads: Seq<EntryReads>,
    payout: u64,
    now: i64,
    k: nat,
)
    requires
        k <= ctx.entries@.len(),
        ctx.vault.total_yield_allocated_bps == named_active_bps(ctx.entries@),
        run_entries(ctx, reads, payout, now, k) is Ok,
    ensures
        ({
            let (p, records, _) = run_entries(ctx, reads, payout, now, k)->Ok_0;
            p.total_yield_allocated_bps == active_bps(records) + named_active_bps(ctx.entries@)
                - named_active_bps(ctx.entries@.take(k as int))
        }),
    decreases k,
{
    let entries = ctx.entries@;
    if k == 0 {
        assert(entries.take(0) =~= Seq::<PayoutEntry>::empty());
    } else {
        let i = k - 1;
        lemma_run_tracks_active_shares(ctx, reads, payout, now, (k - 1) as nat);
        let (p, records, _) = run_entries(ctx, reads, payout, now, (k - 1) as nat)->Ok_0;
        let (p2, rec, _) = entry_step(ctx, entries[i], reads[i], payout, now, p)->Ok_0;
        lemma_named_prefix_step(entries, i);
        lemma_named_prefix_bounded(entries, k as int);
        lemma_active_bps_nonneg(records);
        lemma_active_bps_push(records, rec);
    }
}

/// A distribution releases exactly the shares of the positions it deactivates: if the vault's
/// allocation was what the named records held, it is afterwards what those records hold once
/// updated.
pub proof fn lemma_distribution_tracks_active_shares(
    ctx: KeeperDistributePayout,
    reads: DistributionReads,
    entry_reads: Seq<EntryReads>,
    total_payout_amount: u64,
    now: i64,
)
    requires
        ctx.vault.total_yield_allocated_bps == named_active_bps(ctx.entries@),
        distribution_result(ctx, reads, entry_reads, total_payout_amount, now) is Ok,
    ensures
        ({
            let (v, records, _, _, _) = distribution_result(
                ctx,
                reads,
                entry_reads,
                total_payout_amount,
                now,
            )->Ok_0;
            v.total_yield_allocated_bps == active_bps(records)
        }),
{
    let payout = payout_amount_result(ctx, reads, total_payout_amount)->Ok_0;
    let n = ctx.entries@.len();
    lemma_run_tracks_active_shares(ctx, entry_reads, payout, now, n);
    assert(ctx.entries@.take(n as int) =~= ctx.entries@);
}


/// An entry naming a record that is no longer active is skipped before anything else of it is
/// read: once its address, vault and asset match, processing it leaves the running totals and
/// the record as they were and pays nothing, whatever its Yield NFT account (program owner,
/// data, the owner read from it) and its recipient account hold. A position bought out earlier
/// has had its Yield NFT burned, and must not hold a distribution up.
pub proof fn lemma_inactive_entry_skipped_unread(
    ctx: KeeperDistributePayout,
    entry: PayoutEntry,
    reads: EntryReads,
    payout: u64,
    now: i64,
    p: PayoutProgress,
    rec: YieldRecord,
)
    requires
        reads.derived_record_key == Some(entry.yield_record_key),
        entry.yield_record == Some(rec),
        rec.vault == ctx.vault_key,
        rec.yield_asset_id == entry.yield_asset,
        !rec.is_active,
    ensures
        entry_step(ctx, entry, reads, payout, now, p) == Ok::<_, StripVaultError>((p, rec, 0u64)),
{
}

/// An entry naming an active record that has expired by `now` is released without its Yield
/// NFT being read: whatever its Yield NFT and recipient accounts hold, the record is
/// deactivated with everything else kept, its share leaves the vault's allocation (down to
/// zero at most), and nothing is paid or counted.
pub proof fn lemma_expired_entry_released_unread(
    ctx: KeeperDistributePayout,
    entry: PayoutEntry,
    reads: EntryReads,
    payout: u64,
    now: i64,
    p: PayoutProgress,
    rec: YieldRecord,
)
    requires
        reads.derived_record_key == Some(entry.yield_record_key),
        entry.yield_record == Some(rec),
        rec.vault == ctx.vault_key,
        rec.yield_asset_id == entry.yield_asset,
        rec.is_active,
        rec.expired_at(now),
    ensures
        entry_step(ctx, entry, reads, payout, now, p) matches Ok((p2, r2, share)) && {
            &&& share == 0
            &&& r2 == YieldRecord { is_active: false, ..rec }
            &&& p2.distributed == p.distributed
            &&& p2.holders == p.holders
            &&& p2.total_yield_allocated_bps == (if p.total_yield_allocated_bps >= rec.share_bps {
                p.total_yield_allocated_bps - rec.share_bps
            } else {
                0
            })
        },
{
}

} // verus!
