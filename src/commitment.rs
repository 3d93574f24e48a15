//! The commitment transaction: which HTLCs it carries, what each side
//! receives once the funder pays the fee and anchors, and the anchor outputs.

use vstd::prelude::*;

use crate::chan_utils::{
    commit_tx_fee_sat, commit_tx_fee_spec, fee_for_weight, htlc_success_tx_weight, htlc_success_tx_weight_spec,
    htlc_timeout_tx_weight, htlc_timeout_tx_weight_spec, lemma_fee_for_weight_monotone, ChannelTypeFeatures,
    ANCHOR_OUTPUT_VALUE_SATOSHI, P2A_MAX_VALUE,
};
use crate::tx_builder::{min_int, sat_sub, total_anchors_sat_spec, SpecTxBuilder};

verus! {

/// An HTLC as it stands in a commitment transaction.
#[derive(Clone, Copy, Debug)]
pub struct HTLCOutputInCommitment {
    /// Whether the broadcaster of the commitment offered it.
    pub offered: bool,
    pub amount_msat: u64,
    pub cltv_expiry: u32,
    pub payment_hash: [u8; 32],
    /// The output's P2WSH script.
    pub script_pubkey: [u8; 34],
}

/// The parameters of a channel that a commitment transaction depends on.
#[derive(Clone, Copy, Debug, PartialEq, Eq, Structural)]
pub struct ChannelTransactionParameters {
    pub channel_value_satoshis: u64,
    /// Whether the holder opened, and so funds, the channel.
    pub is_outbound_from_holder: bool,
    pub channel_type_features: ChannelTypeFeatures,
}

/// The outputs of a commitment transaction: each side's balance, the anchor
/// outputs of the channel type, and the HTLCs that are not dust.
#[derive(Debug)]
pub struct CommitmentTransaction {
    pub commitment_number: u64,
    pub feerate_per_kw: u32,
    /// Zero where the output is omitted.
    pub to_broadcaster_value_sat: u64,
    /// Zero where the output is omitted.
    pub to_countersignatory_value_sat: u64,
    /// Whether the broadcaster has a keyed anchor output.
    pub broadcaster_anchor: bool,
    /// Whether the countersignatory has a keyed anchor output.
    pub countersignatory_anchor: bool,
    /// The value of the shared anchor output of a zero-fee commitment.
    pub shared_anchor_value_sat: Option<u64>,
    /// The HTLC outputs, in canonical order (`sort_htlc_outputs`).
    pub htlcs: Vec<HTLCOutputInCommitment>,
}

/// What building a commitment transaction computed along the way.
#[derive(Clone, Copy, Debug, PartialEq, Eq, Structural)]
pub struct CommitmentStats {
    pub commit_tx_fee_sat: u64,
    pub local_balance_before_fee_msat: u64,
    pub remote_balance_before_fee_msat: u64,
}

pub open spec fn output_count_spec(tx: CommitmentTransaction) -> int {
    (if tx.to_broadcaster_value_sat > 0 { 1int } else { 0 })
        + (if tx.to_countersignatory_value_sat > 0 { 1int } else { 0 })
        + (if tx.broadcaster_anchor { 1int } else { 0 })
        + (if tx.countersignatory_anchor { 1int } else { 0 })
        + (if tx.shared_anchor_value_sat is Some { 1int } else { 0 })
        + tx.htlcs@.len()
}

impl CommitmentTransaction {
    /// The number of outputs of the transaction.
    pub fn output_count(&self) -> (r: usize)
        requires
            self.htlcs@.len() + 5 <= usize::MAX,
        ensures
            r == output_count_spec(*self),
    {
        let mut n: usize = self.htlcs.len();
        if self.to_broadcaster_value_sat > 0 {
            n = n + 1;
        }
        if self.to_countersignatory_value_sat > 0 {
            n = n + 1;
        }
        if self.broadcaster_anchor {
            n = n + 1;
        }
        if self.countersignatory_anchor {
            n = n + 1;
        }
        if self.shared_anchor_value_sat.is_some() {
            n = n + 1;
        }
        n
    }
}

/// Whether an HTLC output would be worth less than the broadcaster's dust
/// limit plus the fee, rounded down, of the transaction that claims it.
pub open spec fn htlc_output_is_dust(
    offered: bool,
    amount_msat: u64,
    feerate_per_kw: u32,
    dust_limit_satoshis: u64,
    ct: ChannelTypeFeatures,
) -> bool {
    let htlc_tx_fee_sat = if ct.anchors_zero_fee_htlc_tx {
        0
    } else if offered {
        fee_for_weight(feerate_per_kw as int, htlc_timeout_tx_weight_spec(ct))
    } else {
        fee_for_weight(feerate_per_kw as int, htlc_success_tx_weight_spec(ct))
    };
    amount_msat as int / 1000 < dust_limit_satoshis as int + htlc_tx_fee_sat
}

/// The HTLCs that are not dust, in their order.
pub open spec fn trim_dust(
    htlcs: Seq<HTLCOutputInCommitment>,
    feerate_per_kw: u32,
    dust_limit_satoshis: u64,
    ct: ChannelTypeFeatures,
) -> Seq<HTLCOutputInCommitment>
    decreases htlcs.len(),
{
    if htlcs.len() == 0 {
        seq![]
    } else {
        let rest = trim_dust(htlcs.drop_last(), feerate_per_kw, dust_limit_satoshis, ct);
        if htlc_output_is_dust(htlcs.last().offered, htlcs.last().amount_msat, feerate_per_kw, dust_limit_satoshis, ct) {
            rest
        } else {
            rest.push(htlcs.last())
        }
    }
}

/// Sum of the amounts of the HTLCs whose `offered` flag is `offered`.
pub open spec fn sum_offered_msat(htlcs: Seq<HTLCOutputInCommitment>, offered: bool) -> int
    decreases htlcs.len(),
{
    if htlcs.len() == 0 {
        0
    } else {
        sum_offered_msat(htlcs.drop_last(), offered) + if htlcs.last().offered == offered {
            htlcs.last().amount_msat as int
        } else {
            0
        }
    }
}

/// Sum of the values of the HTLC outputs, each in whole satoshis.
pub open spec fn sum_output_sat(htlcs: Seq<HTLCOutputInCommitment>) -> int
    decreases htlcs.len(),
{
    if htlcs.len() == 0 {
        0
    } else {
        sum_output_sat(htlcs.drop_last()) + htlcs.last().amount_msat as int / 1000
    }
}

/// What a commitment build needs of its inputs: the HTLCs that each side
/// offered fit in that side's balance.
pub open spec fn commitment_inputs_valid(
    local: bool,
    channel_parameters: ChannelTransactionParameters,
    value_to_self_msat: u64,
    htlcs: Seq<HTLCOutputInCommitment>,
) -> bool {
    &&& channel_parameters.channel_value_satoshis * 1000 <= u64::MAX
    &&& sum_offered_msat(htlcs, local) <= value_to_self_msat
    &&& value_to_self_msat + sum_offered_msat(htlcs, !local) <= channel_parameters.channel_value_satoshis * 1000
    &&& htlcs.len() <= u32::MAX
}

/// The balances before fee, `(self, remote)` in millisatoshis: each side less
/// the HTLCs it offered, and the funder's side less the anchor outputs,
/// saturating at zero.
pub open spec fn balances_before_fee_spec(
    local: bool,
    channel_parameters: ChannelTransactionParameters,
    value_to_self_msat: u64,
    htlcs: Seq<HTLCOutputInCommitment>,
) -> (int, int) {
    let self_after = value_to_self_msat - sum_offered_msat(htlcs, local);
    let remote_after = channel_parameters.channel_value_satoshis * 1000 - value_to_self_msat - sum_offered_msat(htlcs, !local);
    let anchors_msat = total_anchors_sat_spec(channel_parameters.channel_type_features) * 1000;
    if channel_parameters.is_outbound_from_holder {
        (sat_sub(self_after, anchors_msat), remote_after)
    } else {
        (self_after, sat_sub(remote_after, anchors_msat))
    }
}

/// The commitment fee for the HTLCs that are not dust.
pub open spec fn commitment_fee_spec(
    channel_parameters: ChannelTransactionParameters,
    htlcs: Seq<HTLCOutputInCommitment>,
    feerate_per_kw: u32,
    dust_limit_satoshis: u64,
) -> int {
    let ct = channel_parameters.channel_type_features;
    commit_tx_fee_spec(feerate_per_kw as int, trim_dust(htlcs, feerate_per_kw, dust_limit_satoshis, ct).len() as int, ct)
}

/// The balances in whole satoshis after the funder pays the fee,
/// `(self, remote)`, saturating at zero.
pub open spec fn balances_after_fee_spec(
    local: bool,
    channel_parameters: ChannelTransactionParameters,
    value_to_self_msat: u64,
    htlcs: Seq<HTLCOutputInCommitment>,
    feerate_per_kw: u32,
    dust_limit_satoshis: u64,
) -> (int, int) {
    let before = balances_before_fee_spec(local, channel_parameters, value_to_self_msat, htlcs);
    let fee = commitment_fee_spec(channel_parameters, htlcs, feerate_per_kw, dust_limit_satoshis);
    if channel_parameters.is_outbound_from_holder {
        (sat_sub(before.0 / 1000, fee), before.1 / 1000)
    } else {
        (before.0 / 1000, sat_sub(before.1 / 1000, fee))
    }
}

/// A balance output, omitted (zero) below the dust limit.
pub open spec fn above_dust_or_zero(value_sat: int, dust_limit_satoshis: u64) -> int {
    if value_sat >= dust_limit_satoshis { value_sat } else { 0 }
}

/// The shared anchor of a zero-fee commitment holds what the other outputs
/// leave of the channel value, up to its cap.
pub open spec fn shared_anchor_value_spec(channel_value_satoshis: int, outputs_sat: int) -> int {
    min_int(P2A_MAX_VALUE as int, channel_value_satoshis - outputs_sat)
}

/// The full contract of a commitment build: the transaction and statistics
/// are these functions of the inputs.
pub open spec fn built_from(
    tx: CommitmentTransaction,
    stats: CommitmentStats,
    local: bool,
    commitment_number: u64,
    channel_parameters: ChannelTransactionParameters,
    value_to_self_msat: u64,
    htlcs: Seq<HTLCOutputInCommitment>,
    feerate_per_kw: u32,
    dust_limit_satoshis: u64,
) -> bool {
    let ct = channel_parameters.channel_type_features;
    let trimmed = trim_dust(htlcs, feerate_per_kw, dust_limit_satoshis, ct);
    let before = balances_before_fee_spec(local, channel_parameters, value_to_self_msat, htlcs);
    let after = balances_after_fee_spec(local, channel_parameters, value_to_self_msat, htlcs, feerate_per_kw, dust_limit_satoshis);
    let to_broadcaster = above_dust_or_zero(if local { after.0 } else { after.1 }, dust_limit_satoshis);
    let to_countersignatory = above_dust_or_zero(if local { after.1 } else { after.0 }, dust_limit_satoshis);
    &&& stats.commit_tx_fee_sat == commitment_fee_spec(channel_parameters, htlcs, feerate_per_kw, dust_limit_satoshis)
    &&& stats.local_balance_before_fee_msat == before.0
    &&& stats.remote_balance_before_fee_msat == before.1
    &&& tx.commitment_number == commitment_number
    &&& tx.feerate_per_kw == feerate_per_kw
    &&& tx.to_broadcaster_value_sat == to_broadcaster
    &&& tx.to_countersignatory_value_sat == to_countersignatory
    &&& tx.htlcs@ == sort_htlc_outputs(trimmed)
    &&& tx.broadcaster_anchor == (ct.anchors_zero_fee_htlc_tx && (to_broadcaster > 0 || trimmed.len() > 0))
    &&& tx.countersignatory_anchor == (ct.anchors_zero_fee_htlc_tx && (to_countersignatory > 0 || trimmed.len() > 0))
    &&& tx.shared_anchor_value_sat == if ct.anchor_zero_fee_commitments {
        Some(shared_anchor_value_spec(
            channel_parameters.channel_value_satoshis as int,
            to_broadcaster + to_countersignatory + sum_output_sat(trimmed),
        ) as u64)
    } else {
        None
    }
}

proof fn lemma_trimmed_value_bounded(
    htlcs: Seq<HTLCOutputInCommitment>,
    feerate_per_kw: u32,
    dust_limit_satoshis: u64,
    ct: ChannelTypeFeatures,
)
    ensures
        0 <= sum_output_sat(trim_dust(htlcs, feerate_per_kw, dust_limit_satoshis, ct)) * 1000
            <= sum_offered_msat(htlcs, true) + sum_offered_msat(htlcs, false),
        0 <= sum_offered_msat(htlcs, true),
        0 <= sum_offered_msat(htlcs, false),
        trim_dust(htlcs, feerate_per_kw, dust_limit_satoshis, ct).len() <= htlcs.len(),
    decreases htlcs.len(),
{
    if htlcs.len() > 0 {
        let rest = htlcs.drop_last();
        lemma_trimmed_value_bounded(rest, feerate_per_kw, dust_limit_satoshis, ct);
        let t = trim_dust(rest, feerate_per_kw, dust_limit_satoshis, ct);
        let h = htlcs.last();
        if !htlc_output_is_dust(h.offered, h.amount_msat, feerate_per_kw, dust_limit_satoshis, ct) {
            assert(t.push(h).drop_last() =~= t);
        }
    }
}

/// Sum of the amounts of all the HTLCs.
pub open spec fn sum_htlc_msat(htlcs: Seq<HTLCOutputInCommitment>) -> int
    decreases htlcs.len(),
{
    if htlcs.len() == 0 {
        0
    } else {
        sum_htlc_msat(htlcs.drop_last()) + htlcs.last().amount_msat as int
    }
}

proof fn lemma_htlc_sums(htlcs: Seq<HTLCOutputInCommitment>, feerate_per_kw: u32, dust_limit_satoshis: u64, ct: ChannelTypeFeatures)
    ensures
        sum_htlc_msat(htlcs) == sum_offered_msat(htlcs, true) + sum_offered_msat(htlcs, false),
        sum_htlc_msat(trim_dust(htlcs, feerate_per_kw, dust_limit_satoshis, ct)) <= sum_htlc_msat(htlcs),
        0 <= sum_htlc_msat(trim_dust(htlcs, feerate_per_kw, dust_limit_satoshis, ct))
            - 1000 * sum_output_sat(trim_dust(htlcs, feerate_per_kw, dust_limit_satoshis, ct))
            <= 999 * trim_dust(htlcs, feerate_per_kw, dust_limit_satoshis, ct).len(),
    decreases htlcs.len(),
{
    if htlcs.len() > 0 {
        let rest = htlcs.drop_last();
        lemma_htlc_sums(rest, feerate_per_kw, dust_limit_satoshis, ct);
        let t = trim_dust(rest, feerate_per_kw, dust_limit_satoshis, ct);
        let h = htlcs.last();
        if !htlc_output_is_dust(h.offered, h.amount_msat, feerate_per_kw, dust_limit_satoshis, ct) {
            assert(t.push(h).drop_last() =~= t);
        }
    }
}

/// No build creates value. In millisatoshis, the balances before fee, every
/// HTLC (dust or not) and the anchors that the funder paid make up the
/// channel value exactly; in whole satoshis, the balance outputs, the HTLC
/// outputs and the shared anchor never exceed it, nor do they with the fee
/// and keyed anchors added where the funder could pay them in full. Where,
/// besides, both balance outputs are present, what is missing from the
/// channel value is the dust HTLCs plus less than one satoshi of rounding
/// for each balance and each HTLC output.
pub proof fn lemma_balance_conservation(
    tx: CommitmentTransaction,
    stats: CommitmentStats,
    local: bool,
    commitment_number: u64,
    channel_parameters: ChannelTransactionParameters,
    value_to_self_msat: u64,
    htlcs: Seq<HTLCOutputInCommitment>,
    feerate_per_kw: u32,
    dust_limit_satoshis: u64,
)
    requires
        commitment_inputs_valid(local, channel_parameters, value_to_self_msat, htlcs),
        built_from(tx, stats, local, commitment_number, channel_parameters, value_to_self_msat, htlcs, feerate_per_kw,
            dust_limit_satoshis),
    ensures
        ({
            let cv_msat = channel_parameters.channel_value_satoshis * 1000;
            let htlc_msat = sum_offered_msat(htlcs, true) + sum_offered_msat(htlcs, false);
            let funder_after_htlcs = if channel_parameters.is_outbound_from_holder {
                value_to_self_msat - sum_offered_msat(htlcs, local)
            } else {
                cv_msat - value_to_self_msat - sum_offered_msat(htlcs, !local)
            };
            let anchors_sat = total_anchors_sat_spec(channel_parameters.channel_type_features);
            let paid_anchors_msat = min_int(funder_after_htlcs, anchors_sat * 1000);
            let trimmed = trim_dust(htlcs, feerate_per_kw, dust_limit_satoshis, channel_parameters.channel_type_features);
            let outputs_sat = tx.to_broadcaster_value_sat + tx.to_countersignatory_value_sat + sum_output_sat(trimmed);
            let funder_before_fee_sat = if channel_parameters.is_outbound_from_holder {
                stats.local_balance_before_fee_msat / 1000
            } else {
                stats.remote_balance_before_fee_msat / 1000
            };
            &&& stats.local_balance_before_fee_msat + stats.remote_balance_before_fee_msat + htlc_msat + paid_anchors_msat == cv_msat
            &&& outputs_sat <= channel_parameters.channel_value_satoshis
            &&& (tx.shared_anchor_value_sat matches Some(v) ==> outputs_sat + v <= channel_parameters.channel_value_satoshis)
            &&& (funder_after_htlcs >= anchors_sat * 1000 && funder_before_fee_sat >= stats.commit_tx_fee_sat ==>
                outputs_sat + stats.commit_tx_fee_sat + anchors_sat <= channel_parameters.channel_value_satoshis)
            &&& (funder_after_htlcs >= anchors_sat * 1000 && funder_before_fee_sat >= stats.commit_tx_fee_sat
                && tx.to_broadcaster_value_sat >= dust_limit_satoshis && tx.to_countersignatory_value_sat >= dust_limit_satoshis ==>
                cv_msat - (outputs_sat + stats.commit_tx_fee_sat + anchors_sat) * 1000
                    < (sum_htlc_msat(htlcs) - sum_htlc_msat(trimmed)) + 1000 * (2 + trimmed.len()))
        }),
{
    lemma_trimmed_value_bounded(htlcs, feerate_per_kw, dust_limit_satoshis, channel_parameters.channel_type_features);
    lemma_htlc_sums(htlcs, feerate_per_kw, dust_limit_satoshis, channel_parameters.channel_type_features);
}

/// Building twice from the same inputs gives the same transaction and the
/// same statistics.
pub proof fn lemma_build_deterministic(
    tx1: CommitmentTransaction,
    stats1: CommitmentStats,
    tx2: CommitmentTransaction,
    stats2: CommitmentStats,
    local: bool,
    commitment_number: u64,
    channel_parameters: ChannelTransactionParameters,
    value_to_self_msat: u64,
    htlcs: Seq<HTLCOutputInCommitment>,
    feerate_per_kw: u32,
    dust_limit_satoshis: u64,
)
    requires
        built_from(tx1, stats1, local, commitment_number, channel_parameters, value_to_self_msat, htlcs, feerate_per_kw,
            dust_limit_satoshis),
        built_from(tx2, stats2, local, commitment_number, channel_parameters, value_to_self_msat, htlcs, feerate_per_kw,
            dust_limit_satoshis),
    ensures
        stats1 == stats2,
        tx1.commitment_number == tx2.commitment_number,
        tx1.feerate_per_kw == tx2.feerate_per_kw,
        tx1.to_broadcaster_value_sat == tx2.to_broadcaster_value_sat,
        tx1.to_countersignatory_value_sat == tx2.to_countersignatory_value_sat,
        tx1.broadcaster_anchor == tx2.broadcaster_anchor,
        tx1.countersignatory_anchor == tx2.countersignatory_anchor,
        tx1.shared_anchor_value_sat == tx2.shared_anchor_value_sat,
        tx1.htlcs@ == tx2.htlcs@,
{
}

fn htlc_output_is_dust_exec(
    offered: bool,
    amount_msat: u64,
    feerate_per_kw: u32,
    dust_limit_satoshis: u64,
    channel_type: &ChannelTypeFeatures,
) -> (r: bool)
    ensures
        r == htlc_output_is_dust(offered, amount_msat, feerate_per_kw, dust_limit_satoshis, *channel_type),
{
    let htlc_tx_fee_sat: u64 = if channel_type.supports_anchors_zero_fee_htlc_tx() {
        0
    } else {
        let htlc_tx_weight = if offered {
            htlc_timeout_tx_weight(channel_type)
        } else {
            htlc_success_tx_weight(channel_type)
        };
        // Rounded down, as the protocol requires.
        proof {
            lemma_fee_for_weight_monotone(feerate_per_kw as int, feerate_per_kw as int, htlc_tx_weight as int, 1000);
        }
        feerate_per_kw as u64 * htlc_tx_weight / 1000
    };
    ((amount_msat / 1000) as u128) < dust_limit_satoshis as u128 + htlc_tx_fee_sat as u128
}

/// Whether `a` comes strictly before `b` in byte order, comparing from index `i`.
pub open spec fn lex_lt_from(a: Seq<u8>, b: Seq<u8>, i: int) -> bool
    decreases a.len() - i,
{
    if i < 0 || i >= a.len() || i >= b.len() {
        false
    } else if a[i] != b[i] {
        a[i] < b[i]
    } else {
        lex_lt_from(a, b, i + 1)
    }
}

/// The canonical order of HTLC outputs: by value in whole satoshis, then by
/// script in byte order, then by CLTV expiry.
pub open spec fn htlc_output_le(a: HTLCOutputInCommitment, b: HTLCOutputInCommitment) -> bool {
    let va = a.amount_msat / 1000;
    let vb = b.amount_msat / 1000;
    if va != vb {
        va < vb
    } else if lex_lt_from(a.script_pubkey@, b.script_pubkey@, 0) {
        true
    } else if lex_lt_from(b.script_pubkey@, a.script_pubkey@, 0) {
        false
    } else {
        a.cltv_expiry <= b.cltv_expiry
    }
}

/// `x` placed before the first element of the sorted `s` that it precedes.
pub open spec fn insert_sorted(s: Seq<HTLCOutputInCommitment>, x: HTLCOutputInCommitment) -> Seq<HTLCOutputInCommitment>
    decreases s.len(),
{
    if s.len() == 0 {
        seq![x]
    } else if !htlc_output_le(s[0], x) {
        seq![x] + s
    } else {
        seq![s[0]] + insert_sorted(s.drop_first(), x)
    }
}

/// The HTLC outputs in canonical order; outputs equal in every key keep
/// their relative order.
pub open spec fn sort_htlc_outputs(s: Seq<HTLCOutputInCommitment>) -> Seq<HTLCOutputInCommitment>
    decreases s.len(),
{
    if s.len() == 0 {
        seq![]
    } else {
        insert_sorted(sort_htlc_outputs(s.drop_last()), s.last())
    }
}

/// Each output comes no later than the next in canonical order.
pub open spec fn htlc_outputs_sorted(s: Seq<HTLCOutputInCommitment>) -> bool {
    forall|i: int| 0 <= i < s.len() - 1 ==> htlc_output_le(#[trigger] s[i], s[i + 1])
}

proof fn lemma_insert_at_first(s: Seq<HTLCOutputInCommitment>, x: HTLCOutputInCommitment, p: int)
    requires
        0 <= p <= s.len(),
        forall|j: int| 0 <= j < p ==> htlc_output_le(#[trigger] s[j], x),
        p == s.len() || !htlc_output_le(s[p], x),
    ensures
        insert_sorted(s, x) == s.insert(p, x),
    decreases s.len(),
{
    if s.len() == 0 {
        assert(s.insert(p, x) =~= seq![x]);
    } else if p == 0 {
        assert(s.insert(p, x) =~= seq![x] + s);
    } else {
        let t = s.drop_first();
        assert forall|j: int| 0 <= j < p - 1 implies htlc_output_le(#[trigger] t[j], x) by {
            assert(t[j] == s[j + 1]);
        }
        lemma_insert_at_first(t, x, p - 1);
        assert(s.insert(p, x) =~= seq![s[0]] + t.insert(p - 1, x));
    }
}

proof fn lemma_prepend_multiset(y: HTLCOutputInCommitment, t: Seq<HTLCOutputInCommitment>)
    ensures
        (seq![y] + t).to_multiset() =~= t.to_multiset().insert(y),
{
    broadcast use vstd::seq_lib::group_to_multiset_ensures;
    let u = seq![y] + t;
    assert(u.remove(0) =~= t);
    assert(u.contains(y)) by {
        assert(u[0] == y);
    }
}

proof fn lemma_insert_sorted_props(s: Seq<HTLCOutputInCommitment>, x: HTLCOutputInCommitment)
    ensures
        insert_sorted(s, x).to_multiset() =~= s.to_multiset().insert(x),
        htlc_outputs_sorted(s) ==> htlc_outputs_sorted(insert_sorted(s, x)),
        insert_sorted(s, x).len() == s.len() + 1,
        s.len() > 0 ==> (insert_sorted(s, x)[0] == s[0] || insert_sorted(s, x)[0] == x),
    decreases s.len(),
{
    if s.len() == 0 {
        lemma_prepend_multiset(x, s);
        assert(seq![x] + s =~= seq![x]);
    } else if !htlc_output_le(s[0], x) {
        lemma_prepend_multiset(x, s);
        let r = seq![x] + s;
        if htlc_outputs_sorted(s) {
            assert forall|i: int| 0 <= i < r.len() - 1 implies htlc_output_le(#[trigger] r[i], r[i + 1]) by {
                if i > 0 {
                    assert(r[i] == s[i - 1] && r[i + 1] == s[i]);
                }
            }
        }
    } else {
        let t = s.drop_first();
        lemma_insert_sorted_props(t, x);
        let it = insert_sorted(t, x);
        let r = seq![s[0]] + it;
        lemma_prepend_multiset(s[0], it);
        lemma_prepend_multiset(s[0], t);
        assert(seq![s[0]] + t =~= s);
        if htlc_outputs_sorted(s) {
            assert(htlc_outputs_sorted(t)) by {
                assert forall|i: int| 0 <= i < t.len() - 1 implies htlc_output_le(#[trigger] t[i], t[i + 1]) by {
                    assert(t[i] == s[i + 1] && t[i + 1] == s[i + 2]);
                }
            }
            assert forall|i: int| 0 <= i < r.len() - 1 implies htlc_output_le(#[trigger] r[i], r[i + 1]) by {
                if i == 0 {
                    assert(r[1] == it[0]);
                    if t.len() > 0 {
                        assert(s[1] == t[0]);
                    }
                } else {
                    assert(r[i] == it[i - 1] && r[i + 1] == it[i]);
                }
            }
        }
    }
}

/// The canonical order sorts the outputs and keeps every one of them.
pub proof fn lemma_sort_htlc_outputs(s: Seq<HTLCOutputInCommitment>)
    ensures
        htlc_outputs_sorted(sort_htlc_outputs(s)),
        sort_htlc_outputs(s).to_multiset() =~= s.to_multiset(),
        sort_htlc_outputs(s).len() == s.len(),
    decreases s.len(),
{
    broadcast use vstd::seq_lib::group_to_multiset_ensures;
    if s.len() > 0 {
        lemma_sort_htlc_outputs(s.drop_last());
        lemma_insert_sorted_props(sort_htlc_outputs(s.drop_last()), s.last());
        assert(s.drop_last().push(s.last()) =~= s);
    } else {
        assert(sort_htlc_outputs(s) =~= s);
    }
}

fn lex_lt(a: &[u8; 34], b: &[u8; 34]) -> (r: bool)
    ensures
        r == lex_lt_from(a@, b@, 0),
{
    let mut i: usize = 0;
    while i < 34 && a[i] == b[i]
        invariant
            0 <= i <= 34,
            a@.len() == 34,
            b@.len() == 34,
            lex_lt_from(a@, b@, 0) == lex_lt_from(a@, b@, i as int),
        decreases 34 - i,
    {
        i = i + 1;
    }
    if i == 34 {
        false
    } else {
        a[i] < b[i]
    }
}

fn htlc_output_le_exec(a: &HTLCOutputInCommitment, b: &HTLCOutputInCommitment) -> (r: bool)
    ensures
        r == htlc_output_le(*a, *b),
{
    let va = a.amount_msat / 1000;
    let vb = b.amount_msat / 1000;
    if va != vb {
        va < vb
    } else if lex_lt(&a.script_pubkey, &b.script_pubkey) {
        true
    } else if lex_lt(&b.script_pubkey, &a.script_pubkey) {
        false
    } else {
        a.cltv_expiry <= b.cltv_expiry
    }
}

/// The HTLC outputs in canonical order.
pub fn sort_htlc_outputs_exec(htlcs: &Vec<HTLCOutputInCommitment>) -> (r: Vec<HTLCOutputInCommitment>)
    ensures
        r@ == sort_htlc_outputs(htlcs@),
        htlc_outputs_sorted(r@),
        r@.to_multiset() == htlcs@.to_multiset(),
{
    let ghost s = htlcs@;
    let mut sorted: Vec<HTLCOutputInCommitment> = Vec::new();
    let mut i: usize = 0;
    while i < htlcs.len()
        invariant
            s == htlcs@,
            i <= s.len(),
            sorted@ == sort_htlc_outputs(s.subrange(0, i as int)),
        decreases s.len() - i,
    {
        let x = htlcs[i];
        let mut p: usize = 0;
        while p < sorted.len() && htlc_output_le_exec(&sorted[p], &x)
            invariant
                p <= sorted@.len(),
                forall|j: int| 0 <= j < p ==> htlc_output_le(#[trigger] sorted@[j], x),
            decreases sorted@.len() - p,
        {
            p = p + 1;
        }
        proof {
            lemma_insert_at_first(sorted@, x, p as int);
            assert(s.subrange(0, i as int + 1).drop_last() =~= s.subrange(0, i as int));
        }
        sorted.insert(p, x);
        i = i + 1;
    }
    assert(s.subrange(0, s.len() as int) =~= s);
    proof {
        lemma_sort_htlc_outputs(s);
    }
    sorted
}

/// Splits off the HTLCs that are not dust, and sums what each side offered
/// and the trimmed outputs' values in whole satoshis.
fn trim_htlcs(
    htlcs_in_tx: &Vec<HTLCOutputInCommitment>,
    local: bool,
    feerate_per_kw: u32,
    broadcaster_dust_limit_satoshis: u64,
    channel_type: &ChannelTypeFeatures,
) -> (r: (Vec<HTLCOutputInCommitment>, u128, u128, u128))
    ensures
        r.0@ == trim_dust(htlcs_in_tx@, feerate_per_kw, broadcaster_dust_limit_satoshis, *channel_type),
        r.1 == sum_offered_msat(htlcs_in_tx@, local),
        r.2 == sum_offered_msat(htlcs_in_tx@, !local),
        r.3 == sum_output_sat(r.0@),
{
    let channel_type = *channel_type;
    let ghost s = htlcs_in_tx@;
    let mut local_htlc_total_msat: u128 = 0;
    let mut remote_htlc_total_msat: u128 = 0;
    let mut trimmed: Vec<HTLCOutputInCommitment> = Vec::new();
    let mut trimmed_value_sat: u128 = 0;
    let mut i: usize = 0;
    while i < htlcs_in_tx.len()
        invariant
            s == htlcs_in_tx@,
            i <= s.len(),
            local_htlc_total_msat == sum_offered_msat(s.subrange(0, i as int), local),
            remote_htlc_total_msat == sum_offered_msat(s.subrange(0, i as int), !local),
            trimmed@ == trim_dust(s.subrange(0, i as int), feerate_per_kw, broadcaster_dust_limit_satoshis, channel_type),
            trimmed_value_sat == sum_output_sat(trimmed@),
            local_htlc_total_msat + remote_htlc_total_msat <= i * u64::MAX,
            trimmed_value_sat <= i * u64::MAX,
            trimmed@.len() <= i,
        decreases s.len() - i,
    {
        let htlc = htlcs_in_tx[i];
        assert(s.subrange(0, i as int + 1).drop_last() =~= s.subrange(0, i as int));
        if htlc.offered == local {
            local_htlc_total_msat = local_htlc_total_msat + htlc.amount_msat as u128;
        } else {
            remote_htlc_total_msat = remote_htlc_total_msat + htlc.amount_msat as u128;
        }
        if !htlc_output_is_dust_exec(htlc.offered, htlc.amount_msat, feerate_per_kw, broadcaster_dust_limit_satoshis, &channel_type) {
            let ghost before = trimmed@;
            trimmed.push(htlc);
            assert(trimmed@.drop_last() =~= before);
            trimmed_value_sat = trimmed_value_sat + (htlc.amount_msat / 1000) as u128;
        }
        i = i + 1;
    }
    assert(s.subrange(0, s.len() as int) =~= s);

    (trimmed, local_htlc_total_msat, remote_htlc_total_msat, trimmed_value_sat)
}

/// The balances before fee in millisatoshis and after fee in whole
/// satoshis, `(self_before, remote_before, self_after, remote_after)`.
fn commitment_balances(
    channel_parameters: &ChannelTransactionParameters,
    value_to_self_msat: u64,
    local_htlc_total_msat: u128,
    remote_htlc_total_msat: u128,
    commit_tx_fee_sat: u64,
) -> (r: (u64, u64, u64, u64))
    requires
        channel_parameters.channel_value_satoshis * 1000 <= u64::MAX,
        local_htlc_total_msat <= value_to_self_msat,
        value_to_self_msat + remote_htlc_total_msat <= channel_parameters.channel_value_satoshis * 1000,
    ensures
        ({
            let self_after = value_to_self_msat - local_htlc_total_msat;
            let remote_after = channel_parameters.channel_value_satoshis * 1000 - value_to_self_msat - remote_htlc_total_msat;
            let anchors_msat = total_anchors_sat_spec(channel_parameters.channel_type_features) * 1000;
            &&& r.0 == if channel_parameters.is_outbound_from_holder { sat_sub(self_after, anchors_msat) } else { self_after }
            &&& r.1 == if channel_parameters.is_outbound_from_holder { remote_after } else { sat_sub(remote_after, anchors_msat) }
            &&& r.2 == if channel_parameters.is_outbound_from_holder { sat_sub(r.0 as int / 1000, commit_tx_fee_sat as int) } else { r.0 as int / 1000 }
            &&& r.3 == if channel_parameters.is_outbound_from_holder { r.1 as int / 1000 } else { sat_sub(r.1 as int / 1000, commit_tx_fee_sat as int) }
            &&& r.2 * 1000 <= self_after
            &&& r.3 * 1000 <= remote_after
        }),
{
    let value_to_self_after_htlcs_msat = value_to_self_msat - local_htlc_total_msat as u64;
    let value_to_remote_after_htlcs_msat = channel_parameters.channel_value_satoshis * 1000 - value_to_self_msat
        - remote_htlc_total_msat as u64;
    let total_anchors_msat: u64 = if channel_parameters.channel_type_features.supports_anchors_zero_fee_htlc_tx() {
        ANCHOR_OUTPUT_VALUE_SATOSHI * 2 * 1000
    } else {
        0
    };
    // The funder's balance may not cover the anchors or the fee when the
    // counterparty proposes a new feerate: the transaction is built before
    // that balance is checked, so these subtractions saturate.
    let (local_balance_before_fee_msat, remote_balance_before_fee_msat) = if channel_parameters.is_outbound_from_holder {
        (value_to_self_after_htlcs_msat.saturating_sub(total_anchors_msat), value_to_remote_after_htlcs_msat)
    } else {
        (value_to_self_after_htlcs_msat, value_to_remote_after_htlcs_msat.saturating_sub(total_anchors_msat))
    };
    let (value_to_self, value_to_remote) = if channel_parameters.is_outbound_from_holder {
        ((local_balance_before_fee_msat / 1000).saturating_sub(commit_tx_fee_sat), remote_balance_before_fee_msat / 1000)
    } else {
        (local_balance_before_fee_msat / 1000, (remote_balance_before_fee_msat / 1000).saturating_sub(commit_tx_fee_sat))
    };
    (local_balance_before_fee_msat, remote_balance_before_fee_msat, value_to_self, value_to_remote)
}

impl SpecTxBuilder {
    /// Builds the commitment transaction of the broadcaster `local`: trims
    /// dust HTLCs, has the funder pay the fee and the anchor outputs
    /// (saturating at zero, as the funder's balance is checked elsewhere),
    /// omits balance outputs below the dust limit, and on zero-fee
    /// commitments puts what the outputs leave, up to its cap, in the
    /// shared anchor.
    pub fn build_commitment_transaction(
        &self,
        local: bool,
        commitment_number: u64,
        channel_parameters: &ChannelTransactionParameters,
        value_to_self_msat: u64,
        htlcs_in_tx: Vec<HTLCOutputInCommitment>,
        feerate_per_kw: u32,
        broadcaster_dust_limit_satoshis: u64,
    ) -> (r: (CommitmentTransaction, CommitmentStats))
        requires
            commitment_inputs_valid(local, *channel_parameters, value_to_self_msat, htlcs_in_tx@),
        ensures
            built_from(r.0, r.1, local, commitment_number, *channel_parameters, value_to_self_msat, htlcs_in_tx@,
                feerate_per_kw, broadcaster_dust_limit_satoshis),
    {
        let channel_type = channel_parameters.channel_type_features;
        let (trimmed, local_htlc_total_msat, remote_htlc_total_msat, trimmed_value_sat) = trim_htlcs(
            &htlcs_in_tx, local, feerate_per_kw, broadcaster_dust_limit_satoshis, &channel_type);
        proof {
            lemma_trimmed_value_bounded(htlcs_in_tx@, feerate_per_kw, broadcaster_dust_limit_satoshis, channel_type);
        }
        let commit_tx_fee_sat = commit_tx_fee_sat(feerate_per_kw, trimmed.len(), &channel_type);
        let sorted = sort_htlc_outputs_exec(&trimmed);
        let (local_balance_before_fee_msat, remote_balance_before_fee_msat, value_to_self, value_to_remote) = commitment_balances(
            channel_parameters, value_to_self_msat, local_htlc_total_msat, remote_htlc_total_msat, commit_tx_fee_sat);

        let mut to_broadcaster_value_sat = if local { value_to_self } else { value_to_remote };
        let mut to_countersignatory_value_sat = if local { value_to_remote } else { value_to_self };
        if to_broadcaster_value_sat < broadcaster_dust_limit_satoshis {
            to_broadcaster_value_sat = 0;
        }
        if to_countersignatory_value_sat < broadcaster_dust_limit_satoshis {
            to_countersignatory_value_sat = 0;
        }

        let has_htlcs = trimmed.len() > 0;
        let keyed_anchors = channel_type.supports_anchors_zero_fee_htlc_tx();
        let shared_anchor_value_sat = if channel_type.supports_anchor_zero_fee_commitments() {
            assert(to_broadcaster_value_sat as int + to_countersignatory_value_sat as int + trimmed_value_sat as int
                <= channel_parameters.channel_value_satoshis as int);
            let outputs_sat: u128 = to_broadcaster_value_sat as u128 + to_countersignatory_value_sat as u128 + trimmed_value_sat;
            let trimmed_sum_sat = channel_parameters.channel_value_satoshis as u128 - outputs_sat;
            Some(if trimmed_sum_sat < P2A_MAX_VALUE as u128 { trimmed_sum_sat as u64 } else { P2A_MAX_VALUE })
        } else {
            None
        };
        let tx = CommitmentTransaction {
            commitment_number,
            feerate_per_kw,
            to_broadcaster_value_sat,
            to_countersignatory_value_sat,
            broadcaster_anchor: keyed_anchors && (to_broadcaster_value_sat > 0 || has_htlcs),
            countersignatory_anchor: keyed_anchors && (to_countersignatory_value_sat > 0 || has_htlcs),
            shared_anchor_value_sat,
            htlcs: sorted,
        };
        let stats = CommitmentStats { commit_tx_fee_sat, local_balance_before_fee_msat, remote_balance_before_fee_msat };
        (tx, stats)
    }
}

} // verus!
