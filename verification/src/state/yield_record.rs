use vstd::prelude::*;

verus! {

/// When a yield position stops receiving payouts.
#[derive(Clone, Copy, Debug, PartialEq, Eq, Structural)]
pub enum ExpiryCondition {
    /// The position never expires
    Never,
    /// Unix timestamp from which the yield has expired
    Timestamp(i64),
    /// Maximum number of payouts to capture
    PayoutCount(u32),
}

/// One carved-out share of a vault's dividend stream, held by whoever holds its Yield NFT.
#[derive(Clone, Copy, Debug)]
pub struct YieldRecord {
    /// The vault PDA this position belongs to
    pub vault: [u8; 32],
    /// Metaplex Core asset id of the Yield NFT
    pub yield_asset_id: [u8; 32],
    /// Fixed SOL buyout price
    pub buyout_price_lamports: u64,
    /// Share of each payout in basis points (2000 = 20.00%)
    pub share_bps: u16,
    /// Number of payouts distributed to this position
    pub payouts_received_count: u32,
    pub is_active: bool,
    pub bump: u8,
    pub expiry_condition: ExpiryCondition,
}

impl YieldRecord {
    /// Seed prefix of the yield record PDA (the bytes of "yield_record"), followed by the vault
    /// and the Yield NFT asset.
    pub const SEED_PREFIX: [u8; 12] = [121, 105, 101, 108, 100, 95, 114, 101, 99, 111, 114, 100];

    /// Whether the position has passively expired at `now`.
    pub open spec fn expired_at(self, now: i64) -> bool {
        match self.expiry_condition {
            ExpiryCondition::Never => false,
            ExpiryCondition::Timestamp(expiry_ts) => now >= expiry_ts,
            ExpiryCondition::PayoutCount(max_payouts) => self.payouts_received_count >= max_payouts,
        }
    }

    /// Expiry is for good: a position expired at some time is expired at every later time, and
    /// stays expired when it receives more payouts.
    pub proof fn lemma_expiry_is_permanent(self, later: Self, t1: i64, t2: i64)
        requires
            t1 <= t2,
            later.expiry_condition == self.expiry_condition,
            later.payouts_received_count >= self.payouts_received_count,
            self.expired_at(t1),
        ensures
            later.expired_at(t2),
    {
    }

    /// Checks if this yield position has passively expired.
    pub fn is_expired(&self, current_timestamp: i64) -> (r: bool)
        ensures
            r == self.expired_at(current_timestamp),
    {
        match self.expiry_condition {
            ExpiryCondition::Never => false,
            ExpiryCondition::Timestamp(expiry_ts) => current_timestamp >= expiry_ts,
            ExpiryCondition::PayoutCount(max_payouts) => self.payouts_received_count >= max_payouts,
        }
    }
}

/// `later` is a later state of the record `earlier`: it keeps its share, and is active only if
/// `earlier` was.
pub open spec fn record_follows(earlier: YieldRecord, later: YieldRecord) -> bool {
    later.share_bps == earlier.share_bps && (later.is_active ==> earlier.is_active)
}

/// The basis points a record holds in its vault's allocation: its share while active, else none.
pub open spec fn allocated_bps(r: YieldRecord) -> int {
    if r.is_active {
        r.share_bps as int
    } else {
        0
    }
}

/// The basis points held by the active records among `records`.
pub open spec fn active_bps(records: Seq<YieldRecord>) -> int
    decreases records.len(),
{
    if records.len() == 0 {
        0
    } else {
        active_bps(records.drop_last()) + allocated_bps(records.last())
    }
}

/// Active shares never add up to less than nothing, nor to less than any one of them.
pub proof fn lemma_active_bps_bounds(records: Seq<YieldRecord>, k: int)
    requires
        0 <= k < records.len(),
    ensures
        active_bps(records) >= allocated_bps(records[k]) >= 0,
    decreases records.len(),
{
    lemma_active_bps_nonneg(records.drop_last());
    if k < records.len() - 1 {
        lemma_active_bps_bounds(records.drop_last(), k);
    }
}

/// Active shares never add up to less than nothing.
pub proof fn lemma_active_bps_nonneg(records: Seq<YieldRecord>)
    ensures
        active_bps(records) >= 0,
    decreases records.len(),
{
    if records.len() > 0 {
        lemma_active_bps_nonneg(records.drop_last());
    }
}

/// Replacing one record changes the active shares by exactly what that record held and holds.
pub proof fn lemma_active_bps_update(records: Seq<YieldRecord>, k: int, r: YieldRecord)
    requires
        0 <= k < records.len(),
    ensures
        active_bps(records.update(k, r)) == active_bps(records) - allocated_bps(records[k])
            + allocated_bps(r),
    decreases records.len(),
{
    let u = records.update(k, r);
    if k == records.len() - 1 {
        assert(u.drop_last() =~= records.drop_last());
    } else {
        assert(u.drop_last() =~= records.drop_last().update(k, r));
        lemma_active_bps_update(records.drop_last(), k, r);
    }
}

/// Adding a record adds exactly what it holds.
pub proof fn lemma_active_bps_push(records: Seq<YieldRecord>, r: YieldRecord)
    ensures
        active_bps(records.push(r)) == active_bps(records) + allocated_bps(r),
{
    assert(records.push(r).drop_last() =~= records);
}

} // verus!
