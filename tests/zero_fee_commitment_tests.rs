use lightning::chan_utils::ChannelTypeFeatures;
use lightning::claims_sweeper::{htlc_claim_batches, CLAIM_TX_RESERVED_WEIGHT, HTLC_CLAIM_WEIGHT, TRUC_MAX_WEIGHT};
use lightning::commitment::{ChannelTransactionParameters, CommitmentTransaction, HTLCOutputInCommitment};
use lightning::tx_builder::SpecTxBuilder;

const CHAN_CAPACITY: u64 = 10_000_000;
const DUST_LIMIT_SATOSHIS: u64 = 354;

fn htlc(offered: bool, amount_msat: u64) -> HTLCOutputInCommitment {
    HTLCOutputInCommitment { offered, amount_msat, cltv_expiry: 500, payment_hash: [7; 32], script_pubkey: [0x20; 34] }
}

// Node 0 opened the channel and pushed half of it to node 1. `node_0_1`
// are HTLCs that node 0 offered, `node_1_0` those that node 1 offered.
fn local_commitment(node: usize, node_0_1: &[u64], node_1_0: &[u64]) -> CommitmentTransaction {
    let params = ChannelTransactionParameters {
        channel_value_satoshis: CHAN_CAPACITY,
        is_outbound_from_holder: node == 0,
        channel_type_features: ChannelTypeFeatures::anchors_zero_fee_commitments(),
    };
    let mut htlcs = Vec::new();
    for amt in node_0_1 {
        htlcs.push(htlc(node == 0, *amt));
    }
    for amt in node_1_0 {
        htlcs.push(htlc(node == 1, *amt));
    }
    let value_to_self_msat = (CHAN_CAPACITY / 2) * 1000;
    let (tx, _) = SpecTxBuilder {}.build_commitment_transaction(
        true, 42, &params, value_to_self_msat, htlcs, 0, DUST_LIMIT_SATOSHIS,
    );
    tx
}

fn p2a_value_test(node_0_1: &[u64], node_1_0: &[u64], expected_p2a_value_sat: u64) {
    let tx = local_commitment(0, node_0_1, node_1_0);
    assert_eq!(tx.shared_anchor_value_sat, Some(expected_p2a_value_sat));
    let tx = local_commitment(1, node_0_1, node_1_0);
    assert_eq!(tx.shared_anchor_value_sat, Some(expected_p2a_value_sat));
}

#[test]
fn test_p2a_anchor_values_under_trims_and_rounds() {
    p2a_value_test(&[1], &[], 1);
    p2a_value_test(&[238_000], &[], 238);
    p2a_value_test(&[238_001], &[], 239);
    p2a_value_test(&[240_000], &[], 240);
    p2a_value_test(&[240_001], &[], 240);
    p2a_value_test(&[353_000], &[], 240);
    p2a_value_test(&[353_999], &[], 240);
    p2a_value_test(&[354_000], &[], 0);
    p2a_value_test(&[354_001], &[], 1);

    p2a_value_test(&[1, 1], &[], 1);
    p2a_value_test(&[1, 999], &[], 1);
    p2a_value_test(&[1, 1000], &[], 2);
    p2a_value_test(&[354_001], &[], 1);
    p2a_value_test(&[354_001, 999], &[], 1);
    p2a_value_test(&[354_001, 1000], &[], 2);
    p2a_value_test(&[354_001, 1999], &[], 2);
    p2a_value_test(&[354_002, 1999], &[], 3);

    p2a_value_test(&[1], &[1], 2);
    p2a_value_test(&[1], &[999], 2);
    p2a_value_test(&[1], &[1000], 2);
    p2a_value_test(&[354_001], &[], 1);
    p2a_value_test(&[354_001], &[999], 2);
    p2a_value_test(&[354_001], &[1000], 2);
    p2a_value_test(&[354_001], &[1999], 3);
    p2a_value_test(&[354_002], &[1999], 3);

    p2a_value_test(&[353_000], &[353_000], 240);
    p2a_value_test(&[353_001], &[353_000], 240);
    p2a_value_test(&[353_000], &[353_001], 240);
    p2a_value_test(&[353_001], &[353_001], 240);
}

#[test]
fn test_htlc_claim_chunking() {
    const NONDUST_HTLC_AMT_MSAT: u64 = 1_000_000;
    let payments = vec![NONDUST_HTLC_AMT_MSAT; 75];
    let node_0_commit_tx = local_commitment(0, &payments, &[]);
    assert_eq!(node_0_commit_tx.output_count(), 75 + 2 + 1);
    let node_1_commit_tx = local_commitment(1, &payments, &[]);
    assert_eq!(node_1_commit_tx.output_count(), 75 + 2 + 1);

    // Node 1 claims all 75 HTLCs; each claim transaction adds one wallet
    // input and one change output to its claims.
    let htlc_claims = htlc_claim_batches(75, HTLC_CLAIM_WEIGHT, CLAIM_TX_RESERVED_WEIGHT, TRUC_MAX_WEIGHT);
    assert_eq!(htlc_claims.len(), 2);
    assert_eq!(htlc_claims[0] + 1, 60);
    assert_eq!(htlc_claims[1] + 1, 17);

    // Once the first claim confirms, the rest are claimed afresh.
    let fresh_htlc_claims = htlc_claim_batches(htlc_claims[1], HTLC_CLAIM_WEIGHT, CLAIM_TX_RESERVED_WEIGHT, TRUC_MAX_WEIGHT);
    assert_eq!(fresh_htlc_claims.len(), 1);
    assert_eq!(fresh_htlc_claims[0] + 1, 17);
}
