//! Dust classification, the statistics of the next commitment, and the
//! estimator of what the holder can send next.

use vstd::prelude::*;

use crate::chan_utils::{
    commit_tx_fee_sat, commit_tx_fee_spec, dust_buffer_feerate_spec, get_dust_buffer_feerate, htlc_tx_fees_sat,
    htlc_tx_fees_spec, second_stage_tx_fees_sat, second_stage_tx_fees_spec, ChannelTypeFeatures,
    ANCHOR_OUTPUT_VALUE_SATOSHI, FEE_SPIKE_BUFFER_FEE_INCREASE_MULTIPLE,
};

verus! {

/// `a + b`, saturated at `u64::MAX`.
pub open spec fn sat_add(a: int, b: int) -> int {
    if a + b > u64::MAX { u64::MAX as int } else { a + b }
}

/// `a - b`, saturated at zero.
pub open spec fn sat_sub(a: int, b: int) -> int {
    if a < b { 0 } else { a - b }
}

/// `a * b`, saturated at `u64::MAX`.
pub open spec fn sat_mul(a: int, b: int) -> int {
    if a * b > u64::MAX { u64::MAX as int } else { a * b }
}

/// The smaller of `a` and `b`.
pub open spec fn min_int(a: int, b: int) -> int {
    if a <= b { a } else { b }
}

/// The larger of `a` and `b`.
pub open spec fn max_int(a: int, b: int) -> int {
    if a >= b { a } else { b }
}

/// Converts satoshis to millisatoshis, saturating at `u64::MAX`.
fn sat_to_msat(sat: u64) -> (r: u64)
    ensures
        r == sat_mul(sat as int, 1000),
{
    match sat.checked_mul(1000) {
        Some(v) => v,
        None => u64::MAX,
    }
}

fn saturating_double(v: u64) -> (r: u64)
    ensures
        r == sat_mul(v as int, FEE_SPIKE_BUFFER_FEE_INCREASE_MULTIPLE as int),
{
    match v.checked_mul(FEE_SPIKE_BUFFER_FEE_INCREASE_MULTIPLE) {
        Some(x) => x,
        None => u64::MAX,
    }
}

/// An HTLC as the estimator sees it: its amount and whether the holder offered it.
#[derive(Clone, Copy, Debug, PartialEq, Eq, Structural)]
pub struct HTLCAmountDirection {
    pub outbound: bool,
    pub amount_msat: u64,
}

/// The pre-paid fee of the second-stage transaction that would claim `htlc`
/// on the commitment of the broadcaster `local`.
pub open spec fn htlc_tx_fee_spec(outbound: bool, local: bool, feerate_per_kw: u32, ct: ChannelTypeFeatures) -> int {
    if outbound == local {
        second_stage_tx_fees_spec(ct, feerate_per_kw as int).1
    } else {
        second_stage_tx_fees_spec(ct, feerate_per_kw as int).0
    }
}

/// Whether an HTLC is worth less, in whole satoshis, than the dust limit plus
/// the fee of the transaction that would claim it.
pub open spec fn is_dust_spec(
    htlc: HTLCAmountDirection,
    local: bool,
    feerate_per_kw: u32,
    dust_limit_satoshis: u64,
    ct: ChannelTypeFeatures,
) -> bool {
    htlc.amount_msat as int / 1000 < dust_limit_satoshis as int + htlc_tx_fee_spec(htlc.outbound, local, feerate_per_kw, ct)
}

/// The smallest amount, in millisatoshis, at which an HTLC of the given
/// direction is not dust.
pub open spec fn dust_threshold_msat(
    outbound: bool,
    local: bool,
    feerate_per_kw: u32,
    dust_limit_satoshis: u64,
    ct: ChannelTypeFeatures,
) -> int {
    (dust_limit_satoshis as int + htlc_tx_fee_spec(outbound, local, feerate_per_kw, ct)) * 1000
}

/// Dust is a single threshold: an HTLC is dust exactly when its amount lies
/// below the threshold of its direction, so a larger amount of the same
/// direction is never dust when a smaller one is not.
pub proof fn lemma_dust_threshold(
    htlc: HTLCAmountDirection,
    local: bool,
    feerate_per_kw: u32,
    dust_limit_satoshis: u64,
    ct: ChannelTypeFeatures,
)
    ensures
        is_dust_spec(htlc, local, feerate_per_kw, dust_limit_satoshis, ct)
            <==> htlc.amount_msat < dust_threshold_msat(htlc.outbound, local, feerate_per_kw, dust_limit_satoshis, ct),
{
}

/// For two HTLCs of one direction, the larger is dust only if the smaller is.
pub proof fn lemma_dust_monotone(
    smaller: HTLCAmountDirection,
    larger: HTLCAmountDirection,
    local: bool,
    feerate_per_kw: u32,
    dust_limit_satoshis: u64,
    ct: ChannelTypeFeatures,
)
    requires
        smaller.outbound == larger.outbound,
        smaller.amount_msat <= larger.amount_msat,
    ensures
        is_dust_spec(larger, local, feerate_per_kw, dust_limit_satoshis, ct)
            ==> is_dust_spec(smaller, local, feerate_per_kw, dust_limit_satoshis, ct),
        !is_dust_spec(smaller, local, feerate_per_kw, dust_limit_satoshis, ct)
            ==> !is_dust_spec(larger, local, feerate_per_kw, dust_limit_satoshis, ct),
{
    lemma_dust_threshold(smaller, local, feerate_per_kw, dust_limit_satoshis, ct);
    lemma_dust_threshold(larger, local, feerate_per_kw, dust_limit_satoshis, ct);
}

impl HTLCAmountDirection {
    /// Whether this HTLC is trimmed from the commitment of the broadcaster `local`.
    pub fn is_dust(
        &self,
        local: bool,
        feerate_per_kw: u32,
        broadcaster_dust_limit_satoshis: u64,
        channel_type: &ChannelTypeFeatures,
    ) -> (r: bool)
        ensures
            r == is_dust_spec(*self, local, feerate_per_kw, broadcaster_dust_limit_satoshis, *channel_type),
    {
        let (success_tx_fee_sat, timeout_tx_fee_sat) = second_stage_tx_fees_sat(channel_type, feerate_per_kw);
        let htlc_tx_fee_sat = if self.outbound == local { timeout_tx_fee_sat } else { success_tx_fee_sat };
        ((self.amount_msat / 1000) as u128) < broadcaster_dust_limit_satoshis as u128 + htlc_tx_fee_sat as u128
    }
}

/// Sum of the amounts of the HTLCs whose direction is `outbound`.
pub open spec fn sum_dir_msat(htlcs: Seq<HTLCAmountDirection>, outbound: bool) -> int
    decreases htlcs.len(),
{
    if htlcs.len() == 0 {
        0
    } else {
        sum_dir_msat(htlcs.drop_last(), outbound) + if htlcs.last().outbound == outbound {
            htlcs.last().amount_msat as int
        } else {
            0
        }
    }
}

/// Number of the HTLCs whose direction is `outbound`.
pub open spec fn count_dir(htlcs: Seq<HTLCAmountDirection>, outbound: bool) -> int
    decreases htlcs.len(),
{
    if htlcs.len() == 0 {
        0
    } else {
        count_dir(htlcs.drop_last(), outbound) + if htlcs.last().outbound == outbound { 1int } else { 0 }
    }
}

/// Number of the HTLCs that are not dust.
pub open spec fn count_nondust(
    htlcs: Seq<HTLCAmountDirection>,
    local: bool,
    feerate_per_kw: u32,
    dust_limit_satoshis: u64,
    ct: ChannelTypeFeatures,
) -> int
    decreases htlcs.len(),
{
    if htlcs.len() == 0 {
        0
    } else {
        count_nondust(htlcs.drop_last(), local, feerate_per_kw, dust_limit_satoshis, ct)
            + if !is_dust_spec(htlcs.last(), local, feerate_per_kw, dust_limit_satoshis, ct) { 1int } else { 0 }
    }
}

/// Number of the HTLCs of direction `outbound` that are not dust.
pub open spec fn count_nondust_dir(
    htlcs: Seq<HTLCAmountDirection>,
    outbound: bool,
    local: bool,
    feerate_per_kw: u32,
    dust_limit_satoshis: u64,
    ct: ChannelTypeFeatures,
) -> int
    decreases htlcs.len(),
{
    if htlcs.len() == 0 {
        0
    } else {
        count_nondust_dir(htlcs.drop_last(), outbound, local, feerate_per_kw, dust_limit_satoshis, ct)
            + if htlcs.last().outbound == outbound && !is_dust_spec(htlcs.last(), local, feerate_per_kw, dust_limit_satoshis, ct) {
            1int
        } else {
            0
        }
    }
}

/// Sum of the amounts of the HTLCs that are dust.
pub open spec fn sum_dust_msat(
    htlcs: Seq<HTLCAmountDirection>,
    local: bool,
    feerate_per_kw: u32,
    dust_limit_satoshis: u64,
    ct: ChannelTypeFeatures,
) -> int
    decreases htlcs.len(),
{
    if htlcs.len() == 0 {
        0
    } else {
        sum_dust_msat(htlcs.drop_last(), local, feerate_per_kw, dust_limit_satoshis, ct)
            + if is_dust_spec(htlcs.last(), local, feerate_per_kw, dust_limit_satoshis, ct) {
            htlcs.last().amount_msat as int
        } else {
            0
        }
    }
}

/// What the next commitment transaction would look like, for the estimator.
#[derive(Clone, Copy, Debug, PartialEq, Eq, Structural)]
pub struct NextCommitmentStats {
    pub is_outbound_from_holder: bool,
    pub inbound_htlcs_count: usize,
    pub inbound_htlcs_value_msat: u64,
    pub holder_balance_before_fee_msat: u64,
    pub counterparty_balance_before_fee_msat: u64,
    pub nondust_htlc_count: usize,
    pub commit_tx_fee_sat: u64,
    pub dust_exposure_msat: u64,
    pub extra_accepted_htlc_dust_exposure_msat: u64,
}

/// The two balances once the funder has paid the commitment fee, or `Err`
/// where the funder cannot.
pub open spec fn balances_incl_fee_spec(s: NextCommitmentStats) -> Result<(u64, u64), ()> {
    let fee_msat = s.commit_tx_fee_sat as int * 1000;
    if s.is_outbound_from_holder {
        if (s.holder_balance_before_fee_msat as int) < fee_msat {
            Err(())
        } else {
            Ok(((s.holder_balance_before_fee_msat - fee_msat) as u64, s.counterparty_balance_before_fee_msat))
        }
    } else {
        if (s.counterparty_balance_before_fee_msat as int) < fee_msat {
            Err(())
        } else {
            Ok((s.holder_balance_before_fee_msat, (s.counterparty_balance_before_fee_msat - fee_msat) as u64))
        }
    }
}

impl NextCommitmentStats {
    /// The holder's and the counterparty's balances after the funder pays
    /// the commitment fee; `Err` exactly when the funder's balance falls short.
    pub fn get_holder_counterparty_balances_incl_fee_msat(&self) -> (r: Result<(u64, u64), ()>)
        ensures
            r == balances_incl_fee_spec(*self),
    {
        let fee_msat: u128 = self.commit_tx_fee_sat as u128 * 1000;
        if self.is_outbound_from_holder {
            if (self.holder_balance_before_fee_msat as u128) < fee_msat {
                Err(())
            } else {
                Ok(((self.holder_balance_before_fee_msat as u128 - fee_msat) as u64, self.counterparty_balance_before_fee_msat))
            }
        } else {
            if (self.counterparty_balance_before_fee_msat as u128) < fee_msat {
                Err(())
            } else {
                Ok((self.holder_balance_before_fee_msat, (self.counterparty_balance_before_fee_msat as u128 - fee_msat) as u64))
            }
        }
    }
}

/// Commitment plus second-stage fees, in millisatoshis (saturating), of the
/// HTLCs that are not dust at `dust_buffer_feerate`; the second value counts
/// one more received HTLC.
pub open spec fn commit_plus_htlc_tx_fees_spec(
    local: bool,
    htlcs: Seq<HTLCAmountDirection>,
    dust_buffer_feerate: u32,
    feerate: u32,
    dust_limit_satoshis: u64,
    ct: ChannelTypeFeatures,
) -> (int, int) {
    let accepted = count_nondust_dir(htlcs, !local, local, dust_buffer_feerate, dust_limit_satoshis, ct);
    let offered = count_nondust_dir(htlcs, local, local, dust_buffer_feerate, dust_limit_satoshis, ct);
    let total = sat_add(
        commit_tx_fee_spec(feerate as int, accepted + offered, ct),
        htlc_tx_fees_spec(feerate as int, accepted, offered, ct),
    );
    let extra = sat_add(
        commit_tx_fee_spec(feerate as int, accepted + 1 + offered, ct),
        htlc_tx_fees_spec(feerate as int, accepted + 1, offered, ct),
    );
    (sat_mul(total, 1000), sat_mul(extra, 1000))
}

/// The fees, in millisatoshis, that the counterparty's commitment would pay
/// above the limiting feerate: for the HTLCs that are not dust at
/// `dust_buffer_feerate`, and for those plus one more received HTLC.
pub fn commit_plus_htlc_tx_fees_msat(
    local: bool,
    next_commitment_htlcs: &[HTLCAmountDirection],
    dust_buffer_feerate: u32,
    feerate: u32,
    broadcaster_dust_limit_satoshis: u64,
    channel_type: &ChannelTypeFeatures,
) -> (r: (u64, u64))
    requires
        next_commitment_htlcs@.len() < u32::MAX,
    ensures
        r.0 == commit_plus_htlc_tx_fees_spec(local, next_commitment_htlcs@, dust_buffer_feerate, feerate, broadcaster_dust_limit_satoshis, *channel_type).0,
        r.1 == commit_plus_htlc_tx_fees_spec(local, next_commitment_htlcs@, dust_buffer_feerate, feerate, broadcaster_dust_limit_satoshis, *channel_type).1,
{
    let ghost s = next_commitment_htlcs@;
    let mut accepted_nondust_htlcs: usize = 0;
    let mut offered_nondust_htlcs: usize = 0;
    let mut i: usize = 0;
    while i < next_commitment_htlcs.len()
        invariant
            s == next_commitment_htlcs@,
            s.len() < u32::MAX,
            i <= s.len(),
            accepted_nondust_htlcs == count_nondust_dir(s.subrange(0, i as int), !local, local, dust_buffer_feerate, broadcaster_dust_limit_satoshis, *channel_type),
            offered_nondust_htlcs == count_nondust_dir(s.subrange(0, i as int), local, local, dust_buffer_feerate, broadcaster_dust_limit_satoshis, *channel_type),
            accepted_nondust_htlcs + offered_nondust_htlcs <= i,
        decreases s.len() - i,
    {
        let htlc = next_commitment_htlcs[i];
        assert(s.subrange(0, i as int + 1).drop_last() =~= s.subrange(0, i as int));
        if !htlc.is_dust(local, dust_buffer_feerate, broadcaster_dust_limit_satoshis, channel_type) {
            if htlc.outbound != local {
                accepted_nondust_htlcs = accepted_nondust_htlcs + 1;
            } else {
                offered_nondust_htlcs = offered_nondust_htlcs + 1;
            }
        }
        i = i + 1;
    }
    assert(s.subrange(0, s.len() as int) =~= s);
    let commitment_fee_sat = commit_tx_fee_sat(feerate, accepted_nondust_htlcs + offered_nondust_htlcs, channel_type);
    let second_stage_fees_sat = htlc_tx_fees_sat(feerate, accepted_nondust_htlcs, offered_nondust_htlcs, channel_type);
    let total_fees_msat = sat_to_msat(commitment_fee_sat.saturating_add(second_stage_fees_sat));
    let extra_accepted_htlc_commitment_fee_sat = commit_tx_fee_sat(feerate, accepted_nondust_htlcs + 1 + offered_nondust_htlcs, channel_type);
    let extra_accepted_htlc_second_stage_fees_sat = htlc_tx_fees_sat(feerate, accepted_nondust_htlcs + 1, offered_nondust_htlcs, channel_type);
    let extra_accepted_htlc_total_fees_msat = sat_to_msat(
        extra_accepted_htlc_commitment_fee_sat.saturating_add(extra_accepted_htlc_second_stage_fees_sat),
    );
    (total_fees_msat, extra_accepted_htlc_total_fees_msat)
}

/// The value of the anchor outputs that the funder pays for.
pub open spec fn total_anchors_sat_spec(ct: ChannelTypeFeatures) -> int {
    if ct.anchors_zero_fee_htlc_tx { ANCHOR_OUTPUT_VALUE_SATOSHI as int * 2 } else { 0 }
}

/// Both balances once the funder's side pays the anchor outputs, saturating
/// at zero: the funder's balance is checked against them elsewhere.
pub open spec fn subtract_addl_outputs_spec(
    is_outbound_from_holder: bool,
    value_to_self_msat: int,
    value_to_remote_msat: int,
    ct: ChannelTypeFeatures,
) -> Result<(u64, u64), ()> {
    let anchors_msat = total_anchors_sat_spec(ct) * 1000;
    if is_outbound_from_holder {
        Ok((sat_sub(value_to_self_msat, anchors_msat) as u64, value_to_remote_msat as u64))
    } else {
        Ok((value_to_self_msat as u64, sat_sub(value_to_remote_msat, anchors_msat) as u64))
    }
}

/// Takes the anchor outputs from the funder's balance, saturating at zero.
/// It never fails: a new feerate is applied before the funder's balance is
/// checked against the anchors and the fee.
pub fn subtract_addl_outputs(
    is_outbound_from_holder: bool,
    value_to_self_after_htlcs_msat: u64,
    value_to_remote_after_htlcs_msat: u64,
    channel_type: &ChannelTypeFeatures,
) -> (r: Result<(u64, u64), ()>)
    ensures
        r == subtract_addl_outputs_spec(is_outbound_from_holder, value_to_self_after_htlcs_msat as int, value_to_remote_after_htlcs_msat as int, *channel_type),
        r is Ok,
{
    let total_anchors_sat: u64 = if channel_type.supports_anchors_zero_fee_htlc_tx() {
        ANCHOR_OUTPUT_VALUE_SATOSHI * 2
    } else {
        0
    };
    if is_outbound_from_holder {
        Ok((value_to_self_after_htlcs_msat.saturating_sub(total_anchors_sat * 1000), value_to_remote_after_htlcs_msat))
    } else {
        Ok((value_to_self_after_htlcs_msat, value_to_remote_after_htlcs_msat.saturating_sub(total_anchors_sat * 1000)))
    }
}

/// The statistics of the next commitment transaction of the broadcaster
/// `local`; `Err` exactly where the holder's value exceeds the channel or the
/// HTLCs overdraw either balance.
pub open spec fn next_commitment_stats_spec(
    local: bool,
    is_outbound_from_holder: bool,
    channel_value_satoshis: u64,
    value_to_holder_msat: u64,
    htlcs: Seq<HTLCAmountDirection>,
    addl_nondust_htlc_count: usize,
    feerate_per_kw: u32,
    dust_exposure_limiting_feerate: Option<u32>,
    dust_limit_satoshis: u64,
    ct: ChannelTypeFeatures,
) -> Result<NextCommitmentStats, ()> {
    let limiting = match dust_exposure_limiting_feerate {
        Some(f) => f,
        None => feerate_per_kw,
    };
    let excess_feerate = sat_sub(feerate_per_kw as int, limiting as int) as u32;
    let value_to_counterparty_msat = channel_value_satoshis as int * 1000 - value_to_holder_msat as int;
    let outbound_msat = sum_dir_msat(htlcs, true);
    let inbound_msat = sum_dir_msat(htlcs, false);
    if value_to_counterparty_msat < 0 || (value_to_holder_msat as int) < outbound_msat
        || value_to_counterparty_msat < inbound_msat {
        Err(())
    } else {
        match subtract_addl_outputs_spec(
            is_outbound_from_holder,
            value_to_holder_msat as int - outbound_msat,
            value_to_counterparty_msat - inbound_msat,
            ct,
        ) {
            Err(e) => Err(e),
            Ok(balances) => {
                let dust_buffer_feerate = dust_buffer_feerate_spec(feerate_per_kw);
                let nondust = count_nondust(htlcs, local, feerate_per_kw, dust_limit_satoshis, ct) + addl_nondust_htlc_count;
                let dust_msat = sum_dust_msat(htlcs, local, dust_buffer_feerate, dust_limit_satoshis, ct);
                let excess = commit_plus_htlc_tx_fees_spec(local, htlcs, dust_buffer_feerate, excess_feerate, dust_limit_satoshis, ct);
                Ok(NextCommitmentStats {
                    is_outbound_from_holder,
                    inbound_htlcs_count: count_dir(htlcs, false) as usize,
                    inbound_htlcs_value_msat: inbound_msat as u64,
                    holder_balance_before_fee_msat: balances.0,
                    counterparty_balance_before_fee_msat: balances.1,
                    nondust_htlc_count: nondust as usize,
                    commit_tx_fee_sat: commit_tx_fee_spec(feerate_per_kw as int, nondust, ct) as u64,
                    dust_exposure_msat: if local { dust_msat as u64 } else { sat_add(dust_msat, excess.0) as u64 },
                    extra_accepted_htlc_dust_exposure_msat: if local {
                        dust_msat as u64
                    } else {
                        sat_add(dust_msat, excess.1) as u64
                    },
                })
            },
        }
    }
}

/// The limits that one side of the channel set for the other.
#[derive(Clone, Copy, Debug, PartialEq, Eq, Structural)]
pub struct ChannelConstraints {
    pub dust_limit_satoshis: u64,
    pub channel_reserve_satoshis: u64,
    pub htlc_minimum_msat: u64,
    pub max_htlc_value_in_flight_msat: u64,
    pub max_accepted_htlcs: u64,
}

/// How much the holder can receive and send, and the bounds on the next HTLC it offers.
#[derive(Clone, Copy, Debug, PartialEq, Eq, Structural)]
pub struct AvailableBalances {
    pub inbound_capacity_msat: u64,
    pub outbound_capacity_msat: u64,
    pub next_outbound_htlc_limit_msat: u64,
    pub next_outbound_htlc_minimum_msat: u64,
}

/// Whether every balance subtraction of the next commitment succeeds: the
/// holder's value fits in the channel and the HTLCs overdraw neither side.
pub open spec fn htlcs_fit_balances(
    is_outbound_from_holder: bool,
    channel_value_satoshis: u64,
    value_to_holder_msat: u64,
    htlcs: Seq<HTLCAmountDirection>,
    ct: ChannelTypeFeatures,
) -> bool {
    next_commitment_stats_spec(true, is_outbound_from_holder, channel_value_satoshis, value_to_holder_msat, htlcs, 0, 0, None, 0, ct) is Ok
}

/// The fee-spike buffer: room for one more HTLC, except on zero-fee commitments.
pub open spec fn fee_spike_buffer_htlc_spec(ct: ChannelTypeFeatures) -> usize {
    if ct.anchor_zero_fee_commitments { 0 } else { 1 }
}

/// What the holder may send next when it pays the fee: the outbound capacity
/// less the reserved fee of a non-dust HTLC or, where that leaves less than
/// the dust limit, at most right below it with the fee of a dust HTLC.
pub open spec fn capacity_after_fee_spec(
    is_outbound_from_holder: bool,
    outbound_capacity_msat: int,
    max_fee_sat: int,
    min_fee_sat: int,
    remote_counterparty_balance_msat: int,
    remote_fee_sat: int,
    feerate_per_kw: u32,
    holder: ChannelConstraints,
    counterparty: ChannelConstraints,
    ct: ChannelTypeFeatures,
) -> int {
    let real_fees = second_stage_tx_fees_spec(ct, feerate_per_kw as int);
    if is_outbound_from_holder {
        let real_dust_limit_timeout_sat = sat_add(real_fees.1, holder.dust_limit_satoshis as int);
        let max_fee_msat0 = sat_mul(max_fee_sat, 1000);
        let min_fee_msat0 = sat_mul(min_fee_sat, 1000);
        let max_fee_msat = if !ct.anchors_zero_fee_htlc_tx { sat_mul(max_fee_msat0, 2) } else { max_fee_msat0 };
        let min_fee_msat = if !ct.anchors_zero_fee_htlc_tx { sat_mul(min_fee_msat0, 2) } else { min_fee_msat0 };
        let minus_max = sat_sub(outbound_capacity_msat, max_fee_msat);
        if minus_max < sat_mul(real_dust_limit_timeout_sat, 1000) {
            min_int(sat_sub(sat_mul(real_dust_limit_timeout_sat, 1000), 1), sat_sub(outbound_capacity_msat, min_fee_msat))
        } else {
            minus_max
        }
    } else {
        let real_dust_limit_success_sat = sat_add(real_fees.0, counterparty.dust_limit_satoshis as int);
        let max_fee_msat = sat_mul(remote_fee_sat, 1000);
        let reserve_msat = sat_mul(counterparty.channel_reserve_satoshis as int, 1000);
        if remote_counterparty_balance_msat < sat_add(max_fee_msat, reserve_msat) {
            min_int(outbound_capacity_msat, sat_sub(sat_mul(real_dust_limit_success_sat, 1000), 1))
        } else {
            outbound_capacity_msat
        }
    }
}

/// The next HTLC's limit and minimum once dust exposure is bounded by
/// `max_dust_htlc_exposure_msat`, at the dust-buffer feerate.
pub open spec fn dust_exposure_bounds_spec(
    capacity_msat: int,
    local_dust_exposure_msat: int,
    remote_dust_exposure_msat: int,
    remote_extra_dust_exposure_msat: int,
    feerate_per_kw: u32,
    max_dust_htlc_exposure_msat: u64,
    holder: ChannelConstraints,
    counterparty: ChannelConstraints,
    ct: ChannelTypeFeatures,
) -> (int, int) {
    let max_dust = max_dust_htlc_exposure_msat as int;
    let buffer = second_stage_tx_fees_spec(ct, dust_buffer_feerate_spec(feerate_per_kw) as int);
    let success_msat = sat_mul(sat_add(buffer.0, counterparty.dust_limit_satoshis as int), 1000);
    let timeout_msat = sat_mul(sat_add(buffer.1, holder.dust_limit_satoshis as int), 1000);
    let cap1 = if remote_extra_dust_exposure_msat > max_dust { min_int(capacity_msat, success_msat) } else { capacity_msat };
    let remote_over = sat_add(remote_dust_exposure_msat, success_msat) > sat_add(max_dust, 1);
    let remaining1: Option<int> = if remote_over { Some(sat_sub(max_dust, remote_dust_exposure_msat)) } else { None };
    let limit1 = if remote_over { success_msat } else { 0 };
    let local_over = local_dust_exposure_msat + timeout_msat - 1 > min_int(max_dust, i64::MAX as int);
    let remaining2: Option<int> = if local_over {
        Some(min_int(
            match remaining1 { Some(r) => r, None => u64::MAX as int },
            sat_sub(max_dust, local_dust_exposure_msat),
        ))
    } else {
        remaining1
    };
    let limit2 = if local_over { max_int(limit1, timeout_msat) } else { limit1 };
    match remaining2 {
        Some(r) => if cap1 < limit2 {
            (min_int(cap1, r), counterparty.htlc_minimum_msat as int)
        } else {
            (cap1, max_int(counterparty.htlc_minimum_msat as int, limit2))
        },
        None => (cap1, counterparty.htlc_minimum_msat as int),
    }
}

/// The balances that the holder can use, from the three commitment
/// statistics that the estimator simulates.
pub open spec fn available_balances_spec(
    is_outbound_from_holder: bool,
    channel_value_satoshis: u64,
    value_to_holder_msat: u64,
    htlcs: Seq<HTLCAmountDirection>,
    feerate_per_kw: u32,
    dust_exposure_limiting_feerate: Option<u32>,
    max_dust_htlc_exposure_msat: u64,
    holder: ChannelConstraints,
    counterparty: ChannelConstraints,
    ct: ChannelTypeFeatures,
) -> AvailableBalances {
    let buffer_htlcs = fee_spike_buffer_htlc_spec(ct);
    let local_max = next_commitment_stats_spec(true, is_outbound_from_holder, channel_value_satoshis, value_to_holder_msat, htlcs,
        (buffer_htlcs + 1) as usize, feerate_per_kw, dust_exposure_limiting_feerate, holder.dust_limit_satoshis, ct)->Ok_0;
    let local_min = next_commitment_stats_spec(true, is_outbound_from_holder, channel_value_satoshis, value_to_holder_msat, htlcs,
        buffer_htlcs, feerate_per_kw, dust_exposure_limiting_feerate, holder.dust_limit_satoshis, ct)->Ok_0;
    let remote = next_commitment_stats_spec(false, is_outbound_from_holder, channel_value_satoshis, value_to_holder_msat, htlcs,
        1, feerate_per_kw, dust_exposure_limiting_feerate, counterparty.dust_limit_satoshis, ct)->Ok_0;
    let outbound_capacity_msat = sat_sub(
        local_max.holder_balance_before_fee_msat as int,
        sat_mul(holder.channel_reserve_satoshis as int, 1000),
    );
    let cap = capacity_after_fee_spec(is_outbound_from_holder, outbound_capacity_msat,
        local_max.commit_tx_fee_sat as int, local_min.commit_tx_fee_sat as int,
        remote.counterparty_balance_before_fee_msat as int, remote.commit_tx_fee_sat as int,
        feerate_per_kw, holder, counterparty, ct);
    let bounded = dust_exposure_bounds_spec(cap, local_max.dust_exposure_msat as int, remote.dust_exposure_msat as int,
        remote.extra_accepted_htlc_dust_exposure_msat as int, feerate_per_kw, max_dust_htlc_exposure_msat, holder, counterparty, ct);
    let in_flight = min_int(bounded.0, sat_sub(counterparty.max_htlc_value_in_flight_msat as int, sum_dir_msat(htlcs, true)));
    let limit = if count_dir(htlcs, true) + 1 > counterparty.max_accepted_htlcs { 0 } else { in_flight };
    AvailableBalances {
        inbound_capacity_msat: sat_sub(
            remote.counterparty_balance_before_fee_msat as int,
            sat_mul(counterparty.channel_reserve_satoshis as int, 1000),
        ) as u64,
        outbound_capacity_msat: outbound_capacity_msat as u64,
        next_outbound_htlc_limit_msat: limit as u64,
        next_outbound_htlc_minimum_msat: bounded.1 as u64,
    }
}

fn capacity_after_fee(
    is_outbound_from_holder: bool,
    outbound_capacity_msat: u64,
    max_fee_sat: u64,
    min_fee_sat: u64,
    remote_counterparty_balance_msat: u64,
    remote_fee_sat: u64,
    feerate_per_kw: u32,
    holder: &ChannelConstraints,
    counterparty: &ChannelConstraints,
    channel_type: &ChannelTypeFeatures,
) -> (r: u64)
    ensures
        r == capacity_after_fee_spec(is_outbound_from_holder, outbound_capacity_msat as int, max_fee_sat as int,
            min_fee_sat as int, remote_counterparty_balance_msat as int, remote_fee_sat as int, feerate_per_kw,
            *holder, *counterparty, *channel_type),
{
    let (real_htlc_success_tx_fee_sat, real_htlc_timeout_tx_fee_sat) = second_stage_tx_fees_sat(channel_type, feerate_per_kw);
    if is_outbound_from_holder {
        // The fee depends on whether the HTLC is dust, and whether it is dust
        // depends on the fee: subtract the fee of a non-dust HTLC first, and
        // where that leaves less than the dust limit, take the dust HTLC's fee
        // and stay right below the limit.
        let real_dust_limit_timeout_sat = real_htlc_timeout_tx_fee_sat.saturating_add(holder.dust_limit_satoshis);
        let mut max_reserved_commit_tx_fee_msat = sat_to_msat(max_fee_sat);
        let mut min_reserved_commit_tx_fee_msat = sat_to_msat(min_fee_sat);
        if !channel_type.supports_anchors_zero_fee_htlc_tx() {
            max_reserved_commit_tx_fee_msat = saturating_double(max_reserved_commit_tx_fee_msat);
            min_reserved_commit_tx_fee_msat = saturating_double(min_reserved_commit_tx_fee_msat);
        }
        let capacity_minus_max_commitment_fee_msat = outbound_capacity_msat.saturating_sub(max_reserved_commit_tx_fee_msat);
        let dust_limit_msat = sat_to_msat(real_dust_limit_timeout_sat);
        if capacity_minus_max_commitment_fee_msat < dust_limit_msat {
            let capacity_minus_min_commitment_fee_msat = outbound_capacity_msat.saturating_sub(min_reserved_commit_tx_fee_msat);
            let below_dust = dust_limit_msat.saturating_sub(1);
            if below_dust <= capacity_minus_min_commitment_fee_msat { below_dust } else { capacity_minus_min_commitment_fee_msat }
        } else {
            capacity_minus_max_commitment_fee_msat
        }
    } else {
        // The counterparty pays the fee: one more HTLC must not take its
        // balance below the reserve that the holder set for it.
        let real_dust_limit_success_sat = real_htlc_success_tx_fee_sat.saturating_add(counterparty.dust_limit_satoshis);
        let max_reserved_commit_tx_fee_msat = sat_to_msat(remote_fee_sat);
        let holder_selected_chan_reserve_msat = sat_to_msat(counterparty.channel_reserve_satoshis);
        if remote_counterparty_balance_msat < max_reserved_commit_tx_fee_msat.saturating_add(holder_selected_chan_reserve_msat) {
            let below_dust = sat_to_msat(real_dust_limit_success_sat).saturating_sub(1);
            if outbound_capacity_msat <= below_dust { outbound_capacity_msat } else { below_dust }
        } else {
            outbound_capacity_msat
        }
    }
}

fn dust_exposure_bounds(
    capacity_msat: u64,
    local_dust_exposure_msat: u64,
    remote_dust_exposure_msat: u64,
    remote_extra_dust_exposure_msat: u64,
    feerate_per_kw: u32,
    max_dust_htlc_exposure_msat: u64,
    holder: &ChannelConstraints,
    counterparty: &ChannelConstraints,
    channel_type: &ChannelTypeFeatures,
) -> (r: (u64, u64))
    ensures
        r.0 == dust_exposure_bounds_spec(capacity_msat as int, local_dust_exposure_msat as int, remote_dust_exposure_msat as int,
            remote_extra_dust_exposure_msat as int, feerate_per_kw, max_dust_htlc_exposure_msat, *holder, *counterparty, *channel_type).0,
        r.1 == dust_exposure_bounds_spec(capacity_msat as int, local_dust_exposure_msat as int, remote_dust_exposure_msat as int,
            remote_extra_dust_exposure_msat as int, feerate_per_kw, max_dust_htlc_exposure_msat, *holder, *counterparty, *channel_type).1,
{
    let mut available_capacity_msat = capacity_msat;
    let mut next_outbound_htlc_minimum_msat = counterparty.htlc_minimum_msat;
    // Near the exposure limit the holder can send either little enough to
    // stay under it or enough to be above dust; the minimum is raised in the
    // second case, as a sender can always pay more to clear the dust limit.
    let mut remaining_msat_below_dust_exposure_limit: Option<u64> = None;
    let mut dust_exposure_dust_limit_msat: u64 = 0;

    let dust_buffer_feerate = get_dust_buffer_feerate(feerate_per_kw);
    let (buffer_htlc_success_tx_fee_sat, buffer_htlc_timeout_tx_fee_sat) = second_stage_tx_fees_sat(channel_type, dust_buffer_feerate);
    let buffer_dust_limit_success_msat = sat_to_msat(buffer_htlc_success_tx_fee_sat.saturating_add(counterparty.dust_limit_satoshis));
    let buffer_dust_limit_timeout_msat = sat_to_msat(buffer_htlc_timeout_tx_fee_sat.saturating_add(holder.dust_limit_satoshis));

    if remote_extra_dust_exposure_msat > max_dust_htlc_exposure_msat {
        // One more non-dust HTLC would exceed the limit in fees: only dust can be sent.
        if buffer_dust_limit_success_msat < available_capacity_msat {
            available_capacity_msat = buffer_dust_limit_success_msat;
        }
    }
    if remote_dust_exposure_msat.saturating_add(buffer_dust_limit_success_msat) > max_dust_htlc_exposure_msat.saturating_add(1) {
        remaining_msat_below_dust_exposure_limit = Some(max_dust_htlc_exposure_msat.saturating_sub(remote_dust_exposure_msat));
        dust_exposure_dust_limit_msat = buffer_dust_limit_success_msat;
    }
    let max_dust_cap: i128 = if max_dust_htlc_exposure_msat as i128 > i64::MAX as i128 {
        i64::MAX as i128
    } else {
        max_dust_htlc_exposure_msat as i128
    };
    if local_dust_exposure_msat as i128 + buffer_dust_limit_timeout_msat as i128 - 1 > max_dust_cap {
        let earlier = match remaining_msat_below_dust_exposure_limit {
            Some(r) => r,
            None => u64::MAX,
        };
        let local_room = max_dust_htlc_exposure_msat.saturating_sub(local_dust_exposure_msat);
        remaining_msat_below_dust_exposure_limit = Some(if earlier <= local_room { earlier } else { local_room });
        if buffer_dust_limit_timeout_msat > dust_exposure_dust_limit_msat {
            dust_exposure_dust_limit_msat = buffer_dust_limit_timeout_msat;
        }
    }
    match remaining_msat_below_dust_exposure_limit {
        Some(remaining_limit_msat) => {
            if available_capacity_msat < dust_exposure_dust_limit_msat {
                if remaining_limit_msat < available_capacity_msat {
                    available_capacity_msat = remaining_limit_msat;
                }
            } else if dust_exposure_dust_limit_msat > next_outbound_htlc_minimum_msat {
                next_outbound_htlc_minimum_msat = dust_exposure_dust_limit_msat;
            }
        },
        None => {},
    }
    (available_capacity_msat, next_outbound_htlc_minimum_msat)
}

/// Computes commitment statistics with the feerate and dust rules of the channel.
pub struct SpecTxBuilder {}

impl SpecTxBuilder {
    /// The statistics of the next commitment of the broadcaster `local`,
    /// counting `addl_nondust_htlc_count` more non-dust HTLCs towards the fee.
    pub fn get_next_commitment_stats(
        &self,
        local: bool,
        is_outbound_from_holder: bool,
        channel_value_satoshis: u64,
        value_to_holder_msat: u64,
        next_commitment_htlcs: &[HTLCAmountDirection],
        addl_nondust_htlc_count: usize,
        feerate_per_kw: u32,
        dust_exposure_limiting_feerate: Option<u32>,
        broadcaster_dust_limit_satoshis: u64,
        channel_type: &ChannelTypeFeatures,
    ) -> (r: Result<NextCommitmentStats, ()>)
        requires
            channel_value_satoshis * 1000 <= u64::MAX,
            next_commitment_htlcs@.len() + addl_nondust_htlc_count < u32::MAX,
        ensures
            r == next_commitment_stats_spec(
                local,
                is_outbound_from_holder,
                channel_value_satoshis,
                value_to_holder_msat,
                next_commitment_htlcs@,
                addl_nondust_htlc_count,
                feerate_per_kw,
                dust_exposure_limiting_feerate,
                broadcaster_dust_limit_satoshis,
                *channel_type,
            ),
    {
        let limiting = match dust_exposure_limiting_feerate {
            Some(f) => f,
            None => feerate_per_kw,
        };
        let excess_feerate = feerate_per_kw.saturating_sub(limiting);
        let dust_buffer_feerate = get_dust_buffer_feerate(feerate_per_kw);

        let ghost s = next_commitment_htlcs@;
        let mut inbound_htlcs_count: usize = 0;
        let mut outbound_htlcs_value_msat: u128 = 0;
        let mut inbound_htlcs_value_msat: u128 = 0;
        let mut nondust_htlc_count: usize = 0;
        let mut dust_exposure_msat: u128 = 0;
        let mut i: usize = 0;
        while i < next_commitment_htlcs.len()
            invariant
                s == next_commitment_htlcs@,
                i <= s.len(),
                inbound_htlcs_count == count_dir(s.subrange(0, i as int), false),
                outbound_htlcs_value_msat == sum_dir_msat(s.subrange(0, i as int), true),
                inbound_htlcs_value_msat == sum_dir_msat(s.subrange(0, i as int), false),
                nondust_htlc_count == count_nondust(s.subrange(0, i as int), local, feerate_per_kw, broadcaster_dust_limit_satoshis, *channel_type),
                dust_exposure_msat == sum_dust_msat(s.subrange(0, i as int), local, dust_buffer_feerate, broadcaster_dust_limit_satoshis, *channel_type),
                inbound_htlcs_count <= i,
                nondust_htlc_count <= i,
                outbound_htlcs_value_msat + inbound_htlcs_value_msat <= i * u64::MAX,
                dust_exposure_msat <= outbound_htlcs_value_msat + inbound_htlcs_value_msat,
            decreases s.len() - i,
        {
            let htlc = next_commitment_htlcs[i];
            assert(s.subrange(0, i as int + 1).drop_last() =~= s.subrange(0, i as int));
            if htlc.outbound {
                outbound_htlcs_value_msat = outbound_htlcs_value_msat + htlc.amount_msat as u128;
            } else {
                inbound_htlcs_count = inbound_htlcs_count + 1;
                inbound_htlcs_value_msat = inbound_htlcs_value_msat + htlc.amount_msat as u128;
            }
            if !htlc.is_dust(local, feerate_per_kw, broadcaster_dust_limit_satoshis, channel_type) {
                nondust_htlc_count = nondust_htlc_count + 1;
            }
            if htlc.is_dust(local, dust_buffer_feerate, broadcaster_dust_limit_satoshis, channel_type) {
                dust_exposure_msat = dust_exposure_msat + htlc.amount_msat as u128;
            }
            i = i + 1;
        }
        assert(s.subrange(0, s.len() as int) =~= s);

        let channel_value_msat = channel_value_satoshis * 1000;
        if channel_value_msat < value_to_holder_msat {
            return Err(());
        }
        let value_to_counterparty_msat = channel_value_msat - value_to_holder_msat;
        if (value_to_holder_msat as u128) < outbound_htlcs_value_msat {
            return Err(());
        }
        if (value_to_counterparty_msat as u128) < inbound_htlcs_value_msat {
            return Err(());
        }
        let value_to_holder_after_htlcs_msat = value_to_holder_msat - outbound_htlcs_value_msat as u64;
        let value_to_counterparty_after_htlcs_msat = value_to_counterparty_msat - inbound_htlcs_value_msat as u64;

        // The funder pays for the anchors.
        let (holder_balance_before_fee_msat, counterparty_balance_before_fee_msat) = match subtract_addl_outputs(
            is_outbound_from_holder,
            value_to_holder_after_htlcs_msat,
            value_to_counterparty_after_htlcs_msat,
            channel_type,
        ) {
            Ok(b) => b,
            Err(e) => {
                return Err(e);
            },
        };

        let total_nondust = nondust_htlc_count + addl_nondust_htlc_count;
        let commit_tx_fee_sat = commit_tx_fee_sat(feerate_per_kw, total_nondust, channel_type);
        let dust_msat = dust_exposure_msat as u64;

        // On the counterparty's commitment, fees beyond the limiting feerate count as exposure.
        let (dust_exposure_msat, extra_accepted_htlc_dust_exposure_msat) = if local {
            (dust_msat, dust_msat)
        } else {
            let (excess_fees_msat, extra_accepted_htlc_excess_fees_msat) = commit_plus_htlc_tx_fees_msat(
                local,
                next_commitment_htlcs,
                dust_buffer_feerate,
                excess_feerate,
                broadcaster_dust_limit_satoshis,
                channel_type,
            );
            (dust_msat.saturating_add(excess_fees_msat), dust_msat.saturating_add(extra_accepted_htlc_excess_fees_msat))
        };

        Ok(NextCommitmentStats {
            is_outbound_from_holder,
            inbound_htlcs_count,
            inbound_htlcs_value_msat: inbound_htlcs_value_msat as u64,
            holder_balance_before_fee_msat,
            counterparty_balance_before_fee_msat,
            nondust_htlc_count: total_nondust,
            commit_tx_fee_sat,
            dust_exposure_msat,
            extra_accepted_htlc_dust_exposure_msat,
        })
    }

    /// Bounds what the holder can send in its next HTLC: the outbound
    /// capacity after its reserve and, where it is the funder, the fee of one
    /// more HTLC; dust exposure at the dust-buffer feerate; the counterparty's
    /// in-flight value and HTLC count limits.
    pub fn get_available_balances(
        &self,
        is_outbound_from_holder: bool,
        channel_value_satoshis: u64,
        value_to_holder_msat: u64,
        pending_htlcs: &[HTLCAmountDirection],
        feerate_per_kw: u32,
        dust_exposure_limiting_feerate: Option<u32>,
        max_dust_htlc_exposure_msat: u64,
        holder_channel_constraints: ChannelConstraints,
        counterparty_channel_constraints: ChannelConstraints,
        channel_type: &ChannelTypeFeatures,
    ) -> (r: AvailableBalances)
        requires
            channel_value_satoshis * 1000 <= u64::MAX,
            pending_htlcs@.len() + 2 < u32::MAX,
            htlcs_fit_balances(is_outbound_from_holder, channel_value_satoshis, value_to_holder_msat, pending_htlcs@, *channel_type),
        ensures
            r == available_balances_spec(
                is_outbound_from_holder,
                channel_value_satoshis,
                value_to_holder_msat,
                pending_htlcs@,
                feerate_per_kw,
                dust_exposure_limiting_feerate,
                max_dust_htlc_exposure_msat,
                holder_channel_constraints,
                counterparty_channel_constraints,
                *channel_type,
            ),
    {
        let fee_spike_buffer_htlc: usize = if channel_type.supports_anchor_zero_fee_commitments() { 0 } else { 1 };
        let local_stats_max_fee = self.get_next_commitment_stats(true, is_outbound_from_holder, channel_value_satoshis,
            value_to_holder_msat, pending_htlcs, fee_spike_buffer_htlc + 1, feerate_per_kw, dust_exposure_limiting_feerate,
            holder_channel_constraints.dust_limit_satoshis, channel_type).unwrap();
        let local_stats_min_fee = self.get_next_commitment_stats(true, is_outbound_from_holder, channel_value_satoshis,
            value_to_holder_msat, pending_htlcs, fee_spike_buffer_htlc, feerate_per_kw, dust_exposure_limiting_feerate,
            holder_channel_constraints.dust_limit_satoshis, channel_type).unwrap();
        let remote_stats = self.get_next_commitment_stats(false, is_outbound_from_holder, channel_value_satoshis,
            value_to_holder_msat, pending_htlcs, 1, feerate_per_kw, dust_exposure_limiting_feerate,
            counterparty_channel_constraints.dust_limit_satoshis, channel_type).unwrap();

        let outbound_capacity_msat = local_stats_max_fee.holder_balance_before_fee_msat.saturating_sub(
            sat_to_msat(holder_channel_constraints.channel_reserve_satoshis),
        );
        let available_capacity_msat = capacity_after_fee(
            is_outbound_from_holder,
            outbound_capacity_msat,
            local_stats_max_fee.commit_tx_fee_sat,
            local_stats_min_fee.commit_tx_fee_sat,
            remote_stats.counterparty_balance_before_fee_msat,
            remote_stats.commit_tx_fee_sat,
            feerate_per_kw,
            &holder_channel_constraints,
            &counterparty_channel_constraints,
            channel_type,
        );
        let (available_capacity_msat, next_outbound_htlc_minimum_msat) = dust_exposure_bounds(
            available_capacity_msat,
            local_stats_max_fee.dust_exposure_msat,
            remote_stats.dust_exposure_msat,
            remote_stats.extra_accepted_htlc_dust_exposure_msat,
            feerate_per_kw,
            max_dust_htlc_exposure_msat,
            &holder_channel_constraints,
            &counterparty_channel_constraints,
            channel_type,
        );

        let ghost s = pending_htlcs@;
        let mut outbound_msat: u128 = 0;
        let mut outbound_count: usize = 0;
        let mut i: usize = 0;
        while i < pending_htlcs.len()
            invariant
                s == pending_htlcs@,
                i <= s.len(),
                outbound_msat == sum_dir_msat(s.subrange(0, i as int), true),
                outbound_count == count_dir(s.subrange(0, i as int), true),
                outbound_msat <= i * u64::MAX,
                outbound_count <= i,
            decreases s.len() - i,
        {
            let htlc = pending_htlcs[i];
            assert(s.subrange(0, i as int + 1).drop_last() =~= s.subrange(0, i as int));
            if htlc.outbound {
                outbound_msat = outbound_msat + htlc.amount_msat as u128;
                outbound_count = outbound_count + 1;
            }
            i = i + 1;
        }
        assert(s.subrange(0, s.len() as int) =~= s);

        let max_in_flight = counterparty_channel_constraints.max_htlc_value_in_flight_msat as u128;
        let in_flight_room: u64 = if max_in_flight < outbound_msat { 0 } else { (max_in_flight - outbound_msat) as u64 };
        let mut available_capacity_msat = if available_capacity_msat < in_flight_room { available_capacity_msat } else { in_flight_room };
        if outbound_count as u128 + 1 > counterparty_channel_constraints.max_accepted_htlcs as u128 {
            available_capacity_msat = 0;
        }

        AvailableBalances {
            inbound_capacity_msat: remote_stats.counterparty_balance_before_fee_msat.saturating_sub(
                sat_to_msat(counterparty_channel_constraints.channel_reserve_satoshis),
            ),
            outbound_capacity_msat,
            next_outbound_htlc_limit_msat: available_capacity_msat,
            next_outbound_htlc_minimum_msat,
        }
    }
}

} // verus!
