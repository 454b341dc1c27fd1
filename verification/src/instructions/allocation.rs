use vstd::prelude::*;
use crate::errors::StripVaultError;
use crate::instructions::creator_initialize_vault::{initialize_result, CreatorInitializeVault};
use crate::instructions::keeper_distribute_payout::{
    distribution_result, entry_settled, lemma_distribution_conserves_payout,
    lemma_distribution_tracks_active_shares, lemma_named_prefix_step, lemma_run_shape,
    named_active_bps, payout_amount_result, run_entries, seq_sum, DistributionReads, EntryReads,
    KeeperDistributePayout, PayoutEntry,
};
use crate::instructions::keeper_execute_swap::{execute_swap_result, KeeperExecuteSwap};
use crate::instructions::keeper_harvest_dividend::{harvest_dividend_result, KeeperHarvestDividend};
use crate::instructions::owner_buyout_yield::{buyout_result, OwnerBuyoutYield};
use crate::instructions::owner_strip_position::{strip_result, OwnerStripPosition};
use crate::state::vault::{PayoutAssetType, Vault};
use crate::state::yield_record::{
    active_bps, allocated_bps, lemma_active_bps_bounds, lemma_active_bps_nonneg,
    lemma_active_bps_push, lemma_active_bps_update, record_follows, ExpiryCondition, YieldRecord,
};

verus! {

/// A vault's allocation together with its yield records, in the order they were created.
pub type VaultRecords = (Vault, Seq<YieldRecord>);

/// How one successful instruction may change a vault's allocation and records: leave both
/// alone; add one active record with a positive share, and that share; deactivate one active
/// record and release its share; or, for a distribution, update records in place, each keeping
/// its share and staying active only if it was, without raising the allocation and keeping it
/// equal to the active records' shares where it was.
pub open spec fn allocation_step(prev: VaultRecords, next: VaultRecords) -> bool {
    let (v, rs) = prev;
    let (v2, rs2) = next;
    let total = v.total_yield_allocated_bps;
    let total2 = v2.total_yield_allocated_bps;
    ||| total2 == total && rs2 == rs
    ||| exists|r: YieldRecord|
        #[trigger] rs.push(r) == rs2 && r.is_active && r.share_bps > 0 && total2 == total
            + r.share_bps && total2 <= Vault::MAX_YIELD_BPS
    ||| exists|k: int, r: YieldRecord|
        0 <= k < rs.len() && rs[k].is_active && !r.is_active && r.share_bps == rs[k].share_bps
            && #[trigger] rs.update(k, r) == rs2 && total2 == (if total >= r.share_bps {
            total - r.share_bps
        } else {
            0
        })
    ||| rs2.len() == rs.len() && total2 <= total && (total == active_bps(rs) ==> total2
        == active_bps(rs2)) && forall|k: int|
        0 <= k < rs.len() ==> record_follows(rs[k], #[trigger] rs2[k])
}

/// The allocation law for one vault state: the allocation is the sum of the shares of the
/// active records and within 100%, and every active record holds a positive share.
pub open spec fn allocation_law(state: VaultRecords) -> bool {
    let (v, rs) = state;
    &&& v.total_yield_allocated_bps == active_bps(rs)
    &&& v.wf()
    &&& forall|k: int| 0 <= k < rs.len() && (#[trigger] rs[k]).is_active ==> rs[k].share_bps > 0
}

/// One step keeps the allocation law.
pub proof fn lemma_allocation_step_keeps_law(prev: VaultRecords, next: VaultRecords)
    requires
        allocation_law(prev),
        allocation_step(prev, next),
    ensures
        allocation_law(next),
{
    let (v, rs) = prev;
    let (v2, rs2) = next;
    let total = v.total_yield_allocated_bps;
    let total2 = v2.total_yield_allocated_bps;
    if total2 == total && rs2 == rs {
    } else if exists|r: YieldRecord|
        #[trigger] rs.push(r) == rs2 && r.is_active && r.share_bps > 0 && total2 == total
            + r.share_bps && total2 <= Vault::MAX_YIELD_BPS {
        let r = choose|r: YieldRecord|
            #[trigger] rs.push(r) == rs2 && r.is_active && r.share_bps > 0 && total2 == total
                + r.share_bps && total2 <= Vault::MAX_YIELD_BPS;
        lemma_active_bps_push(rs, r);
        assert forall|k: int| 0 <= k < rs2.len() && (#[trigger] rs2[k]).is_active implies rs2[k].share_bps
            > 0 by {
            if k < rs.len() {
                assert(rs2[k] == rs[k]);
            }
        }
    } else if exists|k: int, r: YieldRecord|
        0 <= k < rs.len() && rs[k].is_active && !r.is_active && r.share_bps == rs[k].share_bps
            && #[trigger] rs.update(k, r) == rs2 && total2 == (if total >= r.share_bps {
            total - r.share_bps
        } else {
            0
        }) {
        let (k, r) = choose|k: int, r: YieldRecord|
            0 <= k < rs.len() && rs[k].is_active && !r.is_active && r.share_bps == rs[k].share_bps
                && #[trigger] rs.update(k, r) == rs2 && total2 == (if total >= r.share_bps {
                total - r.share_bps
            } else {
                0
            });
        lemma_active_bps_bounds(rs, k);
        lemma_active_bps_update(rs, k, r);
        assert forall|i: int| 0 <= i < rs2.len() && (#[trigger] rs2[i]).is_active implies rs2[i].share_bps
            > 0 by {
            assert(rs2[i] == rs[i]);
        }
    } else {
        assert forall|i: int| 0 <= i < rs2.len() && (#[trigger] rs2[i]).is_active implies rs2[i].share_bps
            > 0 by {
            assert(record_follows(rs[i], rs2[i]));
        }
    }
}

/// The allocation law over a vault's whole history: starting from a freshly created vault,
/// which holds no records and allocates nothing, any sequence of instruction steps keeps the
/// vault's allocation equal to the sum of the shares of its active yield records, within 100%,
/// with every active share positive. A strip adds exactly its share, and only deactivating a
/// record subtracts.
pub proof fn lemma_allocation_over_history(history: Seq<VaultRecords>)
    requires
        history.len() >= 1,
        history[0].0.total_yield_allocated_bps == 0,
        history[0].1.len() == 0,
        forall|i: int| 0 <= i < history.len() - 1 ==> allocation_step(#[trigger] history[i], history[i + 1]),
    ensures
        forall|i: int| 0 <= i < history.len() ==> allocation_law(#[trigger] history[i]),
{
    lemma_history_prefix(history, history.len() - 1);
}

proof fn lemma_history_prefix(history: Seq<VaultRecords>, n: int)
    requires
        0 <= n < history.len(),
        history[0].0.total_yield_allocated_bps == 0,
        history[0].1.len() == 0,
        forall|i: int| 0 <= i < history.len() - 1 ==> allocation_step(#[trigger] history[i], history[i + 1]),
    ensures
        forall|i: int| 0 <= i <= n ==> allocation_law(#[trigger] history[i]),
    decreases n,
{
    if n == 0 {
        assert(history[0].1 =~= Seq::<YieldRecord>::empty());
        assert(allocation_law(history[0]));
    } else {
        lemma_history_prefix(history, n - 1);
        assert(allocation_step(history[n - 1], history[n]));
        assert(allocation_law(history[n - 1]));
        lemma_allocation_step_keeps_law(history[n - 1], history[n]);
    }
}

/// A vault is created allocating nothing, so it starts a history with no records.
pub proof fn lemma_creation_starts_history(
    ctx: CreatorInitializeVault,
    amount: u64,
    payout_asset_type: PayoutAssetType,
    vault_seed: u64,
    multiplier_reading: Result<u64, StripVaultError>,
)
    requires
        initialize_result(ctx, amount, payout_asset_type, vault_seed, multiplier_reading) is Ok,
    ensures
        initialize_result(ctx, amount, payout_asset_type, vault_seed, multiplier_reading)->Ok_0.0.total_yield_allocated_bps
            == 0,
{
}

/// A strip is an allocation step that adds its new record.
pub proof fn lemma_strip_is_allocation_step(
    ctx: OwnerStripPosition,
    master_deed_owner: Option<[u8; 32]>,
    share_bps: u16,
    expiry_condition: ExpiryCondition,
    buyout_price_lamports: u64,
    records: Seq<YieldRecord>,
)
    requires
        strip_result(ctx, master_deed_owner, share_bps, expiry_condition, buyout_price_lamports) is Ok,
    ensures
        ({
            let (v, r, _) = strip_result(
                ctx,
                master_deed_owner,
                share_bps,
                expiry_condition,
                buyout_price_lamports,
            )->Ok_0;
            allocation_step((ctx.vault, records), (v, records.push(r)))
        }),
{
    let (v, r, _) = strip_result(ctx, master_deed_owner, share_bps, expiry_condition, buyout_price_lamports)->Ok_0;
    assert(records.push(r) == records.push(r));
}

/// A buyout of the record at index `k` is an allocation step that deactivates it.
pub proof fn lemma_buyout_is_allocation_step(
    ctx: OwnerBuyoutYield,
    master_deed_owner: Option<[u8; 32]>,
    yield_nft_owner: Option<[u8; 32]>,
    now: i64,
    records: Seq<YieldRecord>,
    k: int,
)
    requires
        0 <= k < records.len(),
        records[k] == ctx.yield_record,
        buyout_result(ctx, master_deed_owner, yield_nft_owner, now) is Ok,
    ensures
        ({
            let (v, r, _) = buyout_result(ctx, master_deed_owner, yield_nft_owner, now)->Ok_0;
            allocation_step((ctx.vault, records), (v, records.update(k, r)))
        }),
{
    let (v, r, _) = buyout_result(ctx, master_deed_owner, yield_nft_owner, now)->Ok_0;
    assert(records.update(k, r) == records.update(k, r));
}

/// Harvests and swaps leave the allocation and the records alone.
pub proof fn lemma_harvest_and_swap_are_allocation_steps(
    harvest: KeeperHarvestDividend,
    multiplier_reading: Result<u64, StripVaultError>,
    swap: KeeperExecuteSwap,
    custom_rate: Option<u64>,
    records: Seq<YieldRecord>,
)
    ensures
        harvest_dividend_result(harvest, multiplier_reading) is Ok ==> allocation_step(
            (harvest.vault, records),
            (harvest_dividend_result(harvest, multiplier_reading)->Ok_0.0, records),
        ),
        execute_swap_result(swap, custom_rate) is Ok ==> allocation_step(
            (swap.vault, records),
            (execute_swap_result(swap, custom_rate)->Ok_0.0, records),
        ),
{
}

/// `rs` with the record at index `idx[j]` replaced by `records[j]`, for each of the first `n`
/// entries.
pub open spec fn apply_updates(
    rs: Seq<YieldRecord>,
    idx: Seq<int>,
    records: Seq<YieldRecord>,
    n: nat,
) -> Seq<YieldRecord>
    decreases n,
{
    if n == 0 {
        rs
    } else {
        apply_updates(rs, idx, records, (n - 1) as nat).update(idx[n - 1], records[n - 1])
    }
}

/// The shares held by the records at the first `n` indices of `idx`.
pub open spec fn indexed_bps(rs: Seq<YieldRecord>, idx: Seq<int>, n: nat) -> int
    decreases n,
{
    if n == 0 {
        0
    } else {
        indexed_bps(rs, idx, (n - 1) as nat) + allocated_bps(rs[idx[n - 1]])
    }
}

/// `idx` names distinct indices of `rs`.
pub open spec fn distinct_indices(rs: Seq<YieldRecord>, idx: Seq<int>) -> bool {
    &&& forall|j: int| 0 <= j < idx.len() ==> 0 <= #[trigger] idx[j] < rs.len()
    &&& forall|j1: int, j2: int| 0 <= j1 < j2 < idx.len() ==> idx[j1] != idx[j2]
}

/// Updating distinct records in place changes the active shares by what the updated records
/// held and hold, leaves the other records alone, and keeps each record following its old self.
proof fn lemma_apply_updates(rs: Seq<YieldRecord>, idx: Seq<int>, records: Seq<YieldRecord>, n: nat)
    requires
        distinct_indices(rs, idx),
        n <= idx.len(),
        n <= records.len(),
        forall|j: int| 0 <= j < n ==> record_follows(rs[idx[j]], #[trigger] records[j]),
    ensures
        apply_updates(rs, idx, records, n).len() == rs.len(),
        active_bps(apply_updates(rs, idx, records, n)) == active_bps(rs) - indexed_bps(rs, idx, n)
            + active_bps(records.take(n as int)),
        forall|k: int|
            0 <= k < rs.len() ==> record_follows(rs[k], #[trigger] apply_updates(rs, idx, records, n)[k]),
        forall|k: int|
            0 <= k < rs.len() && (forall|j: int| 0 <= j < n ==> idx[j] != k) ==> #[trigger] apply_updates(
                rs,
                idx,
                records,
                n,
            )[k] == rs[k],
    decreases n,
{
    if n == 0 {
        assert(records.take(0) =~= Seq::<YieldRecord>::empty());
    } else {
        let m = (n - 1) as nat;
        lemma_apply_updates(rs, idx, records, m);
        let cur = apply_updates(rs, idx, records, m);
        let i = idx[m as int];
        assert(forall|j: int| 0 <= j < m ==> idx[j] != i);
        assert(cur[i] == rs[i]);
        lemma_active_bps_update(cur, i, records[m as int]);
        assert(records.take(n as int) =~= records.take(m as int).push(records[m as int]));
        lemma_active_bps_push(records.take(m as int), records[m as int]);
        let next = apply_updates(rs, idx, records, n);
        assert forall|k: int| 0 <= k < rs.len() implies record_follows(rs[k], #[trigger] next[k]) by {
            if k != i {
                assert(next[k] == cur[k]);
            }
        }
        assert forall|k: int|
            0 <= k < rs.len() && (forall|j: int| 0 <= j < n ==> idx[j] != k) implies #[trigger] next[k]
            == rs[k] by {
            assert(idx[m as int] != k);
            assert(next[k] == cur[k]);
        }
    }
}

/// Records with nothing active hold no shares.
proof fn lemma_inactive_hold_nothing(records: Seq<YieldRecord>)
    requires
        forall|j: int| 0 <= j < records.len() ==> !(#[trigger] records[j]).is_active,
    ensures
        active_bps(records) == 0,
    decreases records.len(),
{
    if records.len() > 0 {
        lemma_inactive_hold_nothing(records.drop_last());
    }
}

/// The shares held by distinct records never exceed the vault's active shares, less the share
/// of any record not among them.
proof fn lemma_indexed_bps_bounded(rs: Seq<YieldRecord>, idx: Seq<int>, k: int)
    requires
        distinct_indices(rs, idx),
        0 <= k < rs.len(),
        forall|j: int| 0 <= j < idx.len() ==> idx[j] != k,
    ensures
        indexed_bps(rs, idx, idx.len()) <= active_bps(rs) - allocated_bps(rs[k]),
{
    let n = idx.len();
    let masked = Seq::new(n, |j: int| YieldRecord { is_active: false, ..rs[idx[j]] });
    lemma_apply_updates(rs, idx, masked, n);
    lemma_inactive_hold_nothing(masked.take(n as int));
    let after = apply_updates(rs, idx, masked, n);
    lemma_active_bps_bounds(after, k);
}

/// What the named entries held, as stored, is what the records they name hold.
proof fn lemma_named_are_indexed(entries: Seq<PayoutEntry>, rs: Seq<YieldRecord>, idx: Seq<int>, n: nat)
    requires
        n <= entries.len(),
        entries.len() == idx.len(),
        forall|j: int| 0 <= j < idx.len() ==> #[trigger] entries[j].yield_record == Some(rs[idx[j]]),
    ensures
        named_active_bps(entries.take(n as int)) == indexed_bps(rs, idx, n),
    decreases n,
{
    if n == 0 {
        assert(entries.take(0) =~= Seq::<PayoutEntry>::empty());
    } else {
        lemma_named_are_indexed(entries, rs, idx, (n - 1) as nat);
        lemma_named_prefix_step(entries, n - 1);
        assert(entries[n - 1].yield_record == Some(rs[idx[n - 1]]));
    }
}

/// A successful distribution pays every position of the vault that is due, exactly once, and
/// is an allocation step. Let `rs` be the vault's records, obeying the allocation law, and let
/// the entries name distinct records of `rs`, entry `j` naming `rs[idx[j]]`, at any indices in
/// any order. Then every active record of `rs` is named (and, the indices being distinct, once);
/// each named active, unexpired record is paid its cut of the payout and has the payout counted,
/// every other named record is paid nothing; the Master Deed holder gets the rest; and the
/// vault with the named records updated is an allocation step from the vault before, so it
/// obeys the allocation law again.
pub proof fn lemma_distribution_pays_every_position(
    ctx: KeeperDistributePayout,
    reads: DistributionReads,
    entry_reads: Seq<EntryReads>,
    total_payout_amount: u64,
    now: i64,
    rs: Seq<YieldRecord>,
    idx: Seq<int>,
)
    requires
        allocation_law((ctx.vault, rs)),
        idx.len() == ctx.entries@.len(),
        distinct_indices(rs, idx),
        forall|j: int| 0 <= j < idx.len() ==> #[trigger] ctx.entries@[j].yield_record == Some(rs[idx[j]]),
        distribution_result(ctx, reads, entry_reads, total_payout_amount, now) is Ok,
    ensures
        ({
            let (v, records, shares, master_share, event) = distribution_result(
                ctx,
                reads,
                entry_reads,
                total_payout_amount,
                now,
            )->Ok_0;
            let updated = apply_updates(rs, idx, records, idx.len());
            &&& forall|k: int|
                0 <= k < rs.len() && (#[trigger] rs[k]).is_active ==> exists|j: int|
                    0 <= j < idx.len() && idx[j] == k
            &&& forall|j: int|
                0 <= j < idx.len() ==> #[trigger] entry_settled(
                    ctx.entries@[j],
                    records[j],
                    shares[j],
                    event.total_payout,
                    now,
                )
            &&& seq_sum(shares) + master_share == event.total_payout
            &&& allocation_step((ctx.vault, rs), (v, updated))
            &&& allocation_law((v, updated))
        }),
{
    let (v, records, shares, master_share, event) = distribution_result(
        ctx,
        reads,
        entry_reads,
        total_payout_amount,
        now,
    )->Ok_0;
    let n = idx.len();
    let entries = ctx.entries@;
    let payout = payout_amount_result(ctx, reads, total_payout_amount)->Ok_0;
    lemma_distribution_conserves_payout(ctx, reads, entry_reads, total_payout_amount, now);
    lemma_run_shape(ctx, entry_reads, payout, now, entries.len());
    lemma_named_are_indexed(entries, rs, idx, n);
    assert(entries.take(n as int) =~= entries);
    // every active record is named: one left out would leave the named shares short
    assert forall|k: int| 0 <= k < rs.len() && (#[trigger] rs[k]).is_active implies exists|j: int|
        0 <= j < idx.len() && idx[j] == k by {
        if !(exists|j: int| 0 <= j < idx.len() && idx[j] == k) {
            lemma_indexed_bps_bounded(rs, idx, k);
            assert(false);
        }
    }
    // so the named records held the whole allocation, and the law carries over
    if n > 0 {
        lemma_indexed_bps_bounded_all(rs, idx);
    }
    assert(ctx.vault.total_yield_allocated_bps == named_active_bps(entries));
    lemma_distribution_tracks_active_shares(ctx, reads, entry_reads, total_payout_amount, now);
    assert forall|j: int| 0 <= j < n implies record_follows(rs[idx[j]], #[trigger] records[j]) by {
        assert(entry_settled(entries[j], records[j], shares[j], payout, now));
    }
    lemma_apply_updates(rs, idx, records, n);
    assert(records.take(n as int) =~= records);
    let updated = apply_updates(rs, idx, records, n);
    assert(allocation_step((ctx.vault, rs), (v, updated)));
    lemma_allocation_step_keeps_law((ctx.vault, rs), (v, updated));
}

/// The shares held by distinct records never exceed the vault's active shares.
proof fn lemma_indexed_bps_bounded_all(rs: Seq<YieldRecord>, idx: Seq<int>)
    requires
        distinct_indices(rs, idx),
    ensures
        indexed_bps(rs, idx, idx.len()) <= active_bps(rs),
{
    let n = idx.len();
    let masked = Seq::new(n, |j: int| YieldRecord { is_active: false, ..rs[idx[j]] });
    lemma_apply_updates(rs, idx, masked, n);
    lemma_inactive_hold_nothing(masked.take(n as int));
    lemma_active_bps_nonneg(apply_updates(rs, idx, masked, n));
}

} // verus!
