//! Channel type features, transaction weights and the fee formulas that
//! depend on them.

use vstd::prelude::*;

verus! {

/// Weight of a commitment transaction with no HTLC outputs.
pub const COMMITMENT_TX_BASE_WEIGHT: u64 = 724;
/// Weight of an anchor-carrying commitment transaction with no HTLC outputs.
pub const COMMITMENT_TX_BASE_ANCHOR_WEIGHT: u64 = 1124;
/// Weight that each non-dust HTLC output adds to a commitment transaction.
pub const COMMITMENT_TX_WEIGHT_PER_HTLC: u64 = 172;
/// Weight of an HTLC-success transaction.
pub const HTLC_SUCCESS_TX_WEIGHT: u64 = 703;
/// Weight of an HTLC-success transaction on an anchor channel.
pub const HTLC_SUCCESS_ANCHOR_TX_WEIGHT: u64 = 706;
/// Weight of an HTLC-timeout transaction.
pub const HTLC_TIMEOUT_TX_WEIGHT: u64 = 663;
/// Weight of an HTLC-timeout transaction on an anchor channel.
pub const HTLC_TIMEOUT_ANCHOR_TX_WEIGHT: u64 = 666;
/// Value of each keyed anchor output.
pub const ANCHOR_OUTPUT_VALUE_SATOSHI: u64 = 330;
/// The most that the shared (pay-to-anchor) output of a zero-fee commitment holds.
pub const P2A_MAX_VALUE: u64 = 240;
/// Factor by which the funder's reserved commitment fee is scaled on non-anchor channels.
pub const FEE_SPIKE_BUFFER_FEE_INCREASE_MULTIPLE: u64 = 2;

/// The channel type flags that change the fee and dust rules.
#[derive(Clone, Copy, Debug, PartialEq, Eq, Structural)]
pub struct ChannelTypeFeatures {
    /// Anchor outputs, with HTLC transactions that carry no pre-paid fee.
    pub anchors_zero_fee_htlc_tx: bool,
    /// Zero-fee commitment transactions with one shared anchor output.
    pub anchor_zero_fee_commitments: bool,
}

impl ChannelTypeFeatures {
    /// A legacy channel type: no anchors.
    pub fn only_static_remote_key() -> (r: Self)
        ensures
            !r.anchors_zero_fee_htlc_tx,
            !r.anchor_zero_fee_commitments,
    {
        ChannelTypeFeatures { anchors_zero_fee_htlc_tx: false, anchor_zero_fee_commitments: false }
    }

    /// Keyed anchors with zero-fee HTLC transactions.
    pub fn anchors_zero_htlc_fee_and_dependencies() -> (r: Self)
        ensures
            r.anchors_zero_fee_htlc_tx,
            !r.anchor_zero_fee_commitments,
    {
        ChannelTypeFeatures { anchors_zero_fee_htlc_tx: true, anchor_zero_fee_commitments: false }
    }

    /// Zero-fee commitments with a shared anchor.
    pub fn anchors_zero_fee_commitments() -> (r: Self)
        ensures
            !r.anchors_zero_fee_htlc_tx,
            r.anchor_zero_fee_commitments,
    {
        ChannelTypeFeatures { anchors_zero_fee_htlc_tx: false, anchor_zero_fee_commitments: true }
    }

    pub fn supports_anchors_zero_fee_htlc_tx(&self) -> (r: bool)
        ensures
            r == self.anchors_zero_fee_htlc_tx,
    {
        self.anchors_zero_fee_htlc_tx
    }

    pub fn supports_anchor_zero_fee_commitments(&self) -> (r: bool)
        ensures
            r == self.anchor_zero_fee_commitments,
    {
        self.anchor_zero_fee_commitments
    }
}

/// Whether HTLC transactions of this channel type carry no pre-paid fee.
pub open spec fn zero_fee_htlc_txs(ct: ChannelTypeFeatures) -> bool {
    ct.anchors_zero_fee_htlc_tx || ct.anchor_zero_fee_commitments
}

pub open spec fn commitment_tx_base_weight_spec(ct: ChannelTypeFeatures) -> int {
    if zero_fee_htlc_txs(ct) {
        COMMITMENT_TX_BASE_ANCHOR_WEIGHT as int
    } else {
        COMMITMENT_TX_BASE_WEIGHT as int
    }
}

pub open spec fn htlc_success_tx_weight_spec(ct: ChannelTypeFeatures) -> int {
    if ct.anchors_zero_fee_htlc_tx {
        HTLC_SUCCESS_ANCHOR_TX_WEIGHT as int
    } else {
        HTLC_SUCCESS_TX_WEIGHT as int
    }
}

pub open spec fn htlc_timeout_tx_weight_spec(ct: ChannelTypeFeatures) -> int {
    if ct.anchors_zero_fee_htlc_tx {
        HTLC_TIMEOUT_ANCHOR_TX_WEIGHT as int
    } else {
        HTLC_TIMEOUT_TX_WEIGHT as int
    }
}

/// Fee, rounded down, of a transaction of `weight` at `feerate_per_kw` (per 1000 weight units).
pub open spec fn fee_for_weight(feerate_per_kw: int, weight: int) -> int {
    feerate_per_kw * weight / 1000
}

/// The pre-paid fees of the HTLC-success and HTLC-timeout transactions.
pub open spec fn second_stage_tx_fees_spec(ct: ChannelTypeFeatures, feerate_per_kw: int) -> (int, int) {
    if zero_fee_htlc_txs(ct) {
        (0, 0)
    } else {
        (
            fee_for_weight(feerate_per_kw, htlc_success_tx_weight_spec(ct)),
            fee_for_weight(feerate_per_kw, htlc_timeout_tx_weight_spec(ct)),
        )
    }
}

/// Fee of a commitment transaction with `nondust_htlc_count` HTLC outputs.
pub open spec fn commit_tx_fee_spec(feerate_per_kw: int, nondust_htlc_count: int, ct: ChannelTypeFeatures) -> int {
    fee_for_weight(
        feerate_per_kw,
        commitment_tx_base_weight_spec(ct) + nondust_htlc_count * COMMITMENT_TX_WEIGHT_PER_HTLC,
    )
}

/// Pre-paid fees of all second-stage transactions of the given HTLC counts.
pub open spec fn htlc_tx_fees_spec(
    feerate_per_kw: int,
    num_accepted_htlcs: int,
    num_offered_htlcs: int,
    ct: ChannelTypeFeatures,
) -> int {
    num_accepted_htlcs * second_stage_tx_fees_spec(ct, feerate_per_kw).0
        + num_offered_htlcs * second_stage_tx_fees_spec(ct, feerate_per_kw).1
}

/// The feerate at which dust exposure is estimated: the larger of the
/// feerate plus 2530 and the feerate plus a quarter (rounded down), capped
/// at `u32::MAX`.
pub open spec fn dust_buffer_feerate_spec(feerate_per_kw: u32) -> u32 {
    let larger = max_of(feerate_per_kw as int + 2530, feerate_per_kw as int * 1250 / 1000);
    if larger > u32::MAX { u32::MAX } else { larger as u32 }
}

/// The larger of `a` and `b`.
pub open spec fn max_of(a: int, b: int) -> int {
    if a >= b { a } else { b }
}

/// A fee never falls when the feerate or the weight grows.
pub proof fn lemma_fee_for_weight_monotone(f1: int, f2: int, w1: int, w2: int)
    requires
        0 <= f1 <= f2,
        0 <= w1 <= w2,
    ensures
        0 <= fee_for_weight(f1, w1) <= fee_for_weight(f2, w2),
{
    vstd::arithmetic::mul::lemma_mul_inequality(f1, f2, w1);
    vstd::arithmetic::mul::lemma_mul_inequality(w1, w2, f2);
    vstd::arithmetic::mul::lemma_mul_is_commutative(w1, f2);
    vstd::arithmetic::mul::lemma_mul_is_commutative(w2, f2);
    vstd::arithmetic::mul::lemma_mul_nonnegative(f1, w1);
    vstd::arithmetic::div_mod::lemma_div_is_ordered(0, f1 * w1, 1000);
    vstd::arithmetic::div_mod::lemma_div_is_ordered(f1 * w1, f2 * w2, 1000);
}

/// The commitment fee never falls when HTLC outputs are added or when the
/// feerate rises, over the feerates and counts that `commit_tx_fee_sat` takes.
pub proof fn lemma_commit_tx_fee_monotone(
    feerate_lo: int,
    feerate_hi: int,
    count_lo: int,
    count_hi: int,
    ct: ChannelTypeFeatures,
)
    requires
        0 <= feerate_lo <= feerate_hi <= u32::MAX,
        0 <= count_lo <= count_hi <= u32::MAX,
    ensures
        commit_tx_fee_spec(feerate_lo, count_lo, ct) <= commit_tx_fee_spec(feerate_hi, count_hi, ct),
{
    let base = commitment_tx_base_weight_spec(ct);
    assert(base + count_lo * COMMITMENT_TX_WEIGHT_PER_HTLC <= base + count_hi * COMMITMENT_TX_WEIGHT_PER_HTLC);
    lemma_fee_for_weight_monotone(
        feerate_lo,
        feerate_hi,
        base + count_lo * COMMITMENT_TX_WEIGHT_PER_HTLC,
        base + count_hi * COMMITMENT_TX_WEIGHT_PER_HTLC,
    );
}

pub fn htlc_success_tx_weight(channel_type: &ChannelTypeFeatures) -> (r: u64)
    ensures
        r == htlc_success_tx_weight_spec(*channel_type),
{
    if channel_type.supports_anchors_zero_fee_htlc_tx() {
        HTLC_SUCCESS_ANCHOR_TX_WEIGHT
    } else {
        HTLC_SUCCESS_TX_WEIGHT
    }
}

pub fn htlc_timeout_tx_weight(channel_type: &ChannelTypeFeatures) -> (r: u64)
    ensures
        r == htlc_timeout_tx_weight_spec(*channel_type),
{
    if channel_type.supports_anchors_zero_fee_htlc_tx() {
        HTLC_TIMEOUT_ANCHOR_TX_WEIGHT
    } else {
        HTLC_TIMEOUT_TX_WEIGHT
    }
}

/// The pre-paid fees `(success, timeout)` of the two HTLC transaction kinds, or
/// zeros where the channel type carries zero-fee HTLC transactions.
pub fn second_stage_tx_fees_sat(channel_type: &ChannelTypeFeatures, feerate_per_kw: u32) -> (r: (u64, u64))
    ensures
        r.0 == second_stage_tx_fees_spec(*channel_type, feerate_per_kw as int).0,
        r.1 == second_stage_tx_fees_spec(*channel_type, feerate_per_kw as int).1,
        r.0 <= feerate_per_kw,
        r.1 <= feerate_per_kw,
{
    if channel_type.supports_anchors_zero_fee_htlc_tx() || channel_type.supports_anchor_zero_fee_commitments() {
        (0, 0)
    } else {
        let success_weight = htlc_success_tx_weight(channel_type);
        let timeout_weight = htlc_timeout_tx_weight(channel_type);
        proof {
            lemma_fee_for_weight_monotone(feerate_per_kw as int, feerate_per_kw as int, success_weight as int, 1000);
            lemma_fee_for_weight_monotone(feerate_per_kw as int, feerate_per_kw as int, timeout_weight as int, 1000);
        }
        (feerate_per_kw as u64 * success_weight / 1000, feerate_per_kw as u64 * timeout_weight / 1000)
    }
}

/// Fee, in satoshis, of a commitment transaction with `nondust_htlc_count`
/// HTLC outputs, rounded down.
pub fn commit_tx_fee_sat(feerate_per_kw: u32, nondust_htlc_count: usize, channel_type: &ChannelTypeFeatures) -> (r: u64)
    requires
        nondust_htlc_count <= u32::MAX,
    ensures
        r == commit_tx_fee_spec(feerate_per_kw as int, nondust_htlc_count as int, *channel_type),
        r < 0x4000_0000_0000_0000,
{
    let base: u64 = if channel_type.supports_anchors_zero_fee_htlc_tx() || channel_type.supports_anchor_zero_fee_commitments() {
        COMMITMENT_TX_BASE_ANCHOR_WEIGHT
    } else {
        COMMITMENT_TX_BASE_WEIGHT
    };
    let weight: u64 = base + nondust_htlc_count as u64 * COMMITMENT_TX_WEIGHT_PER_HTLC;
    proof {
        lemma_fee_for_weight_monotone(feerate_per_kw as int, u32::MAX as int, weight as int, 1124 + 172 * u32::MAX as int);
        assert(1124 + 172 * u32::MAX as int == 738734375864);
        assert(u32::MAX as int * 738734375864 == 3172839984028117367880);
        assert(fee_for_weight(u32::MAX as int, 738734375864) == 3172839984028117367);
        assert(feerate_per_kw as int * weight as int <= u32::MAX as int * (1124 + 172 * u32::MAX as int)) by (nonlinear_arith)
            requires feerate_per_kw <= u32::MAX, 0 <= weight <= 1124 + 172 * u32::MAX as int;
    }
    (feerate_per_kw as u128 * weight as u128 / 1000) as u64
}

/// Pre-paid fees of the second-stage transactions of `num_accepted_htlcs`
/// received and `num_offered_htlcs` offered HTLCs.
pub fn htlc_tx_fees_sat(
    feerate_per_kw: u32,
    num_accepted_htlcs: usize,
    num_offered_htlcs: usize,
    channel_type: &ChannelTypeFeatures,
) -> (r: u64)
    requires
        num_accepted_htlcs + num_offered_htlcs <= u32::MAX,
    ensures
        r == htlc_tx_fees_spec(feerate_per_kw as int, num_accepted_htlcs as int, num_offered_htlcs as int, *channel_type),
        r <= (num_accepted_htlcs + num_offered_htlcs) * u32::MAX,
{
    let (success_fee, timeout_fee) = second_stage_tx_fees_sat(channel_type, feerate_per_kw);
    proof {
        assert(num_accepted_htlcs as int * success_fee as int + num_offered_htlcs as int * timeout_fee as int
            <= (num_accepted_htlcs as int + num_offered_htlcs as int) * u32::MAX as int) by (nonlinear_arith)
            requires
                0 <= success_fee <= u32::MAX,
                0 <= timeout_fee <= u32::MAX,
                num_accepted_htlcs >= 0,
                num_offered_htlcs >= 0;
        assert((num_accepted_htlcs as int + num_offered_htlcs as int) * u32::MAX as int <= u32::MAX as int * u32::MAX as int) by (nonlinear_arith)
            requires 0 <= num_accepted_htlcs as int + num_offered_htlcs as int <= u32::MAX;
    }
    num_accepted_htlcs as u64 * success_fee + num_offered_htlcs as u64 * timeout_fee
}

/// The feerate used to estimate dust exposure, allowing for a feerate rise of
/// 2530 per 1000 weight units or a quarter, whichever is larger.
pub fn get_dust_buffer_feerate(feerate_per_kw: u32) -> (r: u32)
    ensures
        r == dust_buffer_feerate_spec(feerate_per_kw),
        r >= feerate_per_kw,
{
    let plus_floor: u64 = feerate_per_kw as u64 + 2530;
    let plus_quarter: u64 = feerate_per_kw as u64 * 1250 / 1000;
    let larger = if plus_floor >= plus_quarter { plus_floor } else { plus_quarter };
    if larger > u32::MAX as u64 {
        u32::MAX
    } else {
        larger as u32
    }
}

} // verus!
