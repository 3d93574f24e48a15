use lightning::chan_utils::{
    commit_tx_fee_sat, get_dust_buffer_feerate, htlc_tx_fees_sat, second_stage_tx_fees_sat, ChannelTypeFeatures,
};
use lightning::commitment::{ChannelTransactionParameters, HTLCOutputInCommitment};
use lightning::tx_builder::{
    commit_plus_htlc_tx_fees_msat, subtract_addl_outputs, AvailableBalances, ChannelConstraints, HTLCAmountDirection,
    NextCommitmentStats, SpecTxBuilder,
};

fn constraints(dust_limit_satoshis: u64, htlc_minimum_msat: u64, max_htlc_value_in_flight_msat: u64, max_accepted_htlcs: u64) -> ChannelConstraints {
    ChannelConstraints {
        dust_limit_satoshis,
        channel_reserve_satoshis: 1000,
        htlc_minimum_msat,
        max_htlc_value_in_flight_msat,
        max_accepted_htlcs,
    }
}

#[test]
fn commitment_fee_rounds_down_per_weight() {
    let legacy = ChannelTypeFeatures::only_static_remote_key();
    let anchors = ChannelTypeFeatures::anchors_zero_htlc_fee_and_dependencies();
    assert_eq!(commit_tx_fee_sat(253, 0, &legacy), 183);
    assert_eq!(commit_tx_fee_sat(253, 2, &legacy), 270);
    assert_eq!(commit_tx_fee_sat(253, 0, &anchors), 284);
    assert_eq!(commit_tx_fee_sat(0, 10, &legacy), 0);
}

#[test]
fn commitment_fee_is_monotone() {
    let legacy = ChannelTypeFeatures::only_static_remote_key();
    let mut last = 0;
    for n in 0..50usize {
        let fee = commit_tx_fee_sat(2500, n, &legacy);
        assert!(fee >= last);
        last = fee;
    }
    let mut last = 0;
    for feerate in (0..20_000u32).step_by(97) {
        let fee = commit_tx_fee_sat(feerate, 3, &legacy);
        assert!(fee >= last);
        last = fee;
    }
}

#[test]
fn second_stage_fees_by_channel_type() {
    let legacy = ChannelTypeFeatures::only_static_remote_key();
    assert_eq!(second_stage_tx_fees_sat(&legacy, 1000), (703, 663));
    assert_eq!(second_stage_tx_fees_sat(&ChannelTypeFeatures::anchors_zero_htlc_fee_and_dependencies(), 1000), (0, 0));
    assert_eq!(second_stage_tx_fees_sat(&ChannelTypeFeatures::anchors_zero_fee_commitments(), 1000), (0, 0));
    assert_eq!(htlc_tx_fees_sat(1000, 2, 3, &legacy), 3395);
}

#[test]
fn dust_buffer_feerate_takes_larger_margin() {
    assert_eq!(get_dust_buffer_feerate(253), 2783);
    assert_eq!(get_dust_buffer_feerate(20_000), 25_000);
    assert_eq!(get_dust_buffer_feerate(u32::MAX), u32::MAX);
    assert_eq!(get_dust_buffer_feerate(0), 2530);
    // A quarter more, where the product no longer fits in 32 bits.
    assert_eq!(get_dust_buffer_feerate(3_500_000), 4_375_000);
    assert_eq!(get_dust_buffer_feerate(3_435_974), 4_294_967);
    assert_eq!(get_dust_buffer_feerate(u32::MAX - 100), u32::MAX);
}

#[test]
fn dust_has_a_single_threshold() {
    let legacy = ChannelTypeFeatures::only_static_remote_key();
    // Offered on the holder's commitment: the timeout fee, 663 at 1000.
    let below = HTLCAmountDirection { outbound: true, amount_msat: 1_208_999 };
    let at = HTLCAmountDirection { outbound: true, amount_msat: 1_209_000 };
    assert!(below.is_dust(true, 1000, 546, &legacy));
    assert!(!at.is_dust(true, 1000, 546, &legacy));
    // Received: the success fee, 703 at 1000.
    let received = HTLCAmountDirection { outbound: false, amount_msat: 1_248_999 };
    assert!(received.is_dust(true, 1000, 546, &legacy));
    let received = HTLCAmountDirection { outbound: false, amount_msat: 1_249_000 };
    assert!(!received.is_dust(true, 1000, 546, &legacy));
    let mut dust_seen_after_nondust = false;
    let mut nondust = false;
    for amount_msat in (1_000_000..1_400_000u64).step_by(137) {
        let d = HTLCAmountDirection { outbound: true, amount_msat }.is_dust(true, 1000, 546, &legacy);
        if !d {
            nondust = true;
        } else if nondust {
            dust_seen_after_nondust = true;
        }
    }
    assert!(nondust && !dust_seen_after_nondust);
    // Zero-fee HTLC transactions leave only the dust limit.
    let anchors = ChannelTypeFeatures::anchors_zero_htlc_fee_and_dependencies();
    assert!(!HTLCAmountDirection { outbound: true, amount_msat: 546_000 }.is_dust(true, 1000, 546, &anchors));
    assert!(HTLCAmountDirection { outbound: true, amount_msat: 545_999 }.is_dust(true, 1000, 546, &anchors));
}

fn sample_htlcs() -> Vec<HTLCAmountDirection> {
    vec![
        HTLCAmountDirection { outbound: true, amount_msat: 5_000_000 },
        HTLCAmountDirection { outbound: false, amount_msat: 2_000_000 },
        HTLCAmountDirection { outbound: true, amount_msat: 100_000 },
    ]
}

#[test]
fn next_commitment_stats_counts_fees_and_dust() {
    let legacy = ChannelTypeFeatures::only_static_remote_key();
    let stats = SpecTxBuilder {}
        .get_next_commitment_stats(true, true, 100_000, 60_000_000, &sample_htlcs(), 0, 1000, None, 546, &legacy)
        .unwrap();
    assert_eq!(
        stats,
        NextCommitmentStats {
            is_outbound_from_holder: true,
            inbound_htlcs_count: 1,
            inbound_htlcs_value_msat: 2_000_000,
            holder_balance_before_fee_msat: 54_900_000,
            counterparty_balance_before_fee_msat: 38_000_000,
            nondust_htlc_count: 2,
            commit_tx_fee_sat: 1068,
            dust_exposure_msat: 2_100_000,
            extra_accepted_htlc_dust_exposure_msat: 2_100_000,
        }
    );
    assert_eq!(stats.get_holder_counterparty_balances_incl_fee_msat(), Ok((53_832_000, 38_000_000)));
}

#[test]
fn next_commitment_stats_rejects_overdrawn_balances() {
    let legacy = ChannelTypeFeatures::only_static_remote_key();
    let builder = SpecTxBuilder {};
    // The holder's HTLCs exceed its balance.
    assert!(builder.get_next_commitment_stats(true, true, 100_000, 4_000_000, &sample_htlcs(), 0, 1000, None, 546, &legacy).is_err());
    // The holder's balance exceeds the channel.
    assert!(builder.get_next_commitment_stats(true, true, 100_000, 100_000_001, &[], 0, 1000, None, 546, &legacy).is_err());
    // The funder cannot pay the anchors: its balance saturates at zero.
    let anchors = ChannelTypeFeatures::anchors_zero_htlc_fee_and_dependencies();
    let stats = builder.get_next_commitment_stats(true, true, 100_000, 100_000, &[], 0, 1000, None, 546, &anchors).unwrap();
    assert_eq!(stats.holder_balance_before_fee_msat, 0);
    assert_eq!(stats.counterparty_balance_before_fee_msat, 99_900_000);
    let stats = builder.get_next_commitment_stats(true, true, 100_000, 660_001, &[], 0, 1000, None, 546, &anchors).unwrap();
    assert_eq!(stats.holder_balance_before_fee_msat, 1);
}

#[test]
fn balances_incl_fee_fails_when_funder_short() {
    let stats = NextCommitmentStats {
        is_outbound_from_holder: false,
        inbound_htlcs_count: 0,
        inbound_htlcs_value_msat: 0,
        holder_balance_before_fee_msat: 10_000,
        counterparty_balance_before_fee_msat: 999_999,
        nondust_htlc_count: 0,
        commit_tx_fee_sat: 1000,
        dust_exposure_msat: 0,
        extra_accepted_htlc_dust_exposure_msat: 0,
    };
    assert_eq!(stats.get_holder_counterparty_balances_incl_fee_msat(), Err(()));
    let stats = NextCommitmentStats { counterparty_balance_before_fee_msat: 1_000_000, ..stats };
    assert_eq!(stats.get_holder_counterparty_balances_incl_fee_msat(), Ok((10_000, 0)));
}

#[test]
fn excess_feerate_counts_towards_counterparty_dust_exposure() {
    let legacy = ChannelTypeFeatures::only_static_remote_key();
    // Feerate 1000 over a limiting feerate of 500: commitment fee and
    // second-stage fees at 500 count as exposure on the counterparty's side.
    let stats = SpecTxBuilder {}
        .get_next_commitment_stats(false, true, 100_000, 60_000_000, &[], 0, 1000, Some(500), 546, &legacy)
        .unwrap();
    // 500 * 724 / 1000 = 362; one more received HTLC: 500 * 896 / 1000 = 448, plus 500 * 703 / 1000 = 351.
    assert_eq!(stats.dust_exposure_msat, 362_000);
    assert_eq!(stats.extra_accepted_htlc_dust_exposure_msat, 799_000);
}

#[test]
fn available_balances_zero_fee_commitments() {
    let zfc = ChannelTypeFeatures::anchors_zero_fee_commitments();
    let holder = constraints(354, 1, 100_000_000, 114);
    let counterparty = constraints(354, 1, 50_000_000, 114);
    let r = SpecTxBuilder {}.get_available_balances(true, 100_000, 60_000_000, &[], 0, None, 5_000_000, holder, counterparty, &zfc);
    assert_eq!(
        r,
        AvailableBalances {
            inbound_capacity_msat: 39_000_000,
            outbound_capacity_msat: 59_000_000,
            next_outbound_htlc_limit_msat: 50_000_000,
            next_outbound_htlc_minimum_msat: 1,
        }
    );
    // Near the dust exposure limit the minimum rises above dust.
    let r = SpecTxBuilder {}.get_available_balances(true, 100_000, 60_000_000, &[], 0, None, 100_000, holder, counterparty, &zfc);
    assert_eq!(r.next_outbound_htlc_limit_msat, 50_000_000);
    assert_eq!(r.next_outbound_htlc_minimum_msat, 354_000);
    // No room for another HTLC.
    let full = constraints(354, 1, 50_000_000, 0);
    let r = SpecTxBuilder {}.get_available_balances(true, 100_000, 60_000_000, &[], 0, None, 5_000_000, holder, full, &zfc);
    assert_eq!(r.next_outbound_htlc_limit_msat, 0);
}

#[test]
fn available_balances_reserve_fee_for_funder() {
    let legacy = ChannelTypeFeatures::only_static_remote_key();
    let holder = constraints(546, 1, 100_000_000, 30);
    let counterparty = constraints(546, 1000, 100_000_000, 30);
    let r = SpecTxBuilder {}.get_available_balances(true, 100_000, 60_000_000, &[], 1000, None, 5_000_000, holder, counterparty, &legacy);
    assert_eq!(
        r,
        AvailableBalances {
            inbound_capacity_msat: 39_000_000,
            outbound_capacity_msat: 59_000_000,
            next_outbound_htlc_limit_msat: 56_864_000,
            next_outbound_htlc_minimum_msat: 1000,
        }
    );
    let r = SpecTxBuilder {}.get_available_balances(false, 100_000, 60_000_000, &[], 1000, None, 5_000_000, holder, counterparty, &legacy);
    assert_eq!(r.next_outbound_htlc_limit_msat, 59_000_000);
}

fn legacy_params() -> ChannelTransactionParameters {
    ChannelTransactionParameters {
        channel_value_satoshis: 100_000,
        is_outbound_from_holder: true,
        channel_type_features: ChannelTypeFeatures::only_static_remote_key(),
    }
}

fn commitment_htlcs() -> Vec<HTLCOutputInCommitment> {
    vec![
        HTLCOutputInCommitment { offered: true, amount_msat: 5_000_000, cltv_expiry: 100, payment_hash: [1; 32], script_pubkey: [1; 34] },
        HTLCOutputInCommitment { offered: false, amount_msat: 2_000_000, cltv_expiry: 101, payment_hash: [2; 32], script_pubkey: [2; 34] },
        HTLCOutputInCommitment { offered: true, amount_msat: 100_000, cltv_expiry: 102, payment_hash: [3; 32], script_pubkey: [3; 34] },
    ]
}

#[test]
fn build_trims_dust_and_charges_funder() {
    let (tx, stats) = SpecTxBuilder {}.build_commitment_transaction(true, 7, &legacy_params(), 60_000_000, commitment_htlcs(), 1000, 546);
    assert_eq!(stats.commit_tx_fee_sat, 1068);
    assert_eq!(stats.local_balance_before_fee_msat, 54_900_000);
    assert_eq!(stats.remote_balance_before_fee_msat, 38_000_000);
    assert_eq!(tx.commitment_number, 7);
    assert_eq!(tx.to_broadcaster_value_sat, 53_832);
    assert_eq!(tx.to_countersignatory_value_sat, 38_000);
    assert_eq!(tx.htlcs.len(), 2);
    // Sorted by value.
    assert_eq!(tx.htlcs[0].amount_msat, 2_000_000);
    assert_eq!(tx.htlcs[1].amount_msat, 5_000_000);
    assert!(!tx.broadcaster_anchor && !tx.countersignatory_anchor);
    assert_eq!(tx.shared_anchor_value_sat, None);
    assert_eq!(tx.output_count(), 4);
    // Conservation: outputs, fee and the trimmed dust HTLC make the channel.
    let htlc_sat: u64 = tx.htlcs.iter().map(|h| h.amount_msat / 1000).sum();
    assert_eq!(tx.to_broadcaster_value_sat + tx.to_countersignatory_value_sat + htlc_sat + stats.commit_tx_fee_sat + 100, 100_000);
}

#[test]
fn build_is_deterministic() {
    let (tx1, stats1) = SpecTxBuilder {}.build_commitment_transaction(false, 9, &legacy_params(), 60_000_000, commitment_htlcs(), 1000, 546);
    let (tx2, stats2) = SpecTxBuilder {}.build_commitment_transaction(false, 9, &legacy_params(), 60_000_000, commitment_htlcs(), 1000, 546);
    assert_eq!(stats1, stats2);
    assert_eq!(format!("{:?}", tx1), format!("{:?}", tx2));
}

#[test]
fn build_saturates_and_omits_dust_balances() {
    // The funder cannot pay its anchors and fee: its output is omitted and
    // the keyed anchors follow the outputs.
    let params = ChannelTransactionParameters {
        channel_value_satoshis: 100_000,
        is_outbound_from_holder: true,
        channel_type_features: ChannelTypeFeatures::anchors_zero_htlc_fee_and_dependencies(),
    };
    let (tx, stats) = SpecTxBuilder {}.build_commitment_transaction(true, 1, &params, 500_000, vec![], 253, 354);
    assert_eq!(stats.local_balance_before_fee_msat, 0);
    assert_eq!(stats.remote_balance_before_fee_msat, 99_500_000);
    assert_eq!(tx.to_broadcaster_value_sat, 0);
    assert_eq!(tx.to_countersignatory_value_sat, 99_500);
    assert!(!tx.broadcaster_anchor);
    assert!(tx.countersignatory_anchor);
    assert_eq!(tx.output_count(), 2);
}

#[test]
fn anchors_come_from_the_funder() {
    let anchors = ChannelTypeFeatures::anchors_zero_htlc_fee_and_dependencies();
    let legacy = ChannelTypeFeatures::only_static_remote_key();
    assert_eq!(subtract_addl_outputs(true, 1_000_000, 2_000_000, &anchors), Ok((340_000, 2_000_000)));
    assert_eq!(subtract_addl_outputs(false, 1_000_000, 2_000_000, &anchors), Ok((1_000_000, 1_340_000)));
    assert_eq!(subtract_addl_outputs(true, 659_999, 2_000_000, &anchors), Ok((0, 2_000_000)));
    assert_eq!(subtract_addl_outputs(false, 1_000_000, 659_999, &anchors), Ok((1_000_000, 0)));
    assert_eq!(subtract_addl_outputs(true, 0, 5, &anchors), Ok((0, 5)));
    assert_eq!(subtract_addl_outputs(true, 0, 0, &legacy), Ok((0, 0)));
}

#[test]
fn commit_plus_htlc_fees_count_nondust_htlcs() {
    let legacy = ChannelTypeFeatures::only_static_remote_key();
    // At the buffer feerate 3530 the received 2_000_000 and the offered
    // 100_000 are dust; only the offered 5_000_000 counts.
    // Commitment: 1000 * (724 + 172) / 1000 = 896; timeout: 663.
    // One more received: 1000 * (724 + 344) / 1000 = 1068, plus 663 and 703.
    assert_eq!(
        commit_plus_htlc_tx_fees_msat(true, &sample_htlcs(), 3530, 1000, 546, &legacy),
        (1_559_000, 2_434_000)
    );
    assert_eq!(commit_plus_htlc_tx_fees_msat(true, &[], 3530, 0, 546, &legacy), (0, 0));
}

fn out(amount_msat: u64, script_byte: u8, cltv_expiry: u32) -> HTLCOutputInCommitment {
    HTLCOutputInCommitment { offered: true, amount_msat, cltv_expiry, payment_hash: [0; 32], script_pubkey: [script_byte; 34] }
}

#[test]
fn htlc_outputs_in_canonical_order() {
    let params = ChannelTransactionParameters {
        channel_value_satoshis: 100_000,
        is_outbound_from_holder: true,
        channel_type_features: ChannelTypeFeatures::anchors_zero_fee_commitments(),
    };
    // Value first (in whole satoshis), then script bytes, then CLTV expiry.
    let htlcs = vec![out(2_000_000, 1, 9), out(1_000_000, 9, 9), out(1_000_999, 5, 9), out(1_000_500, 5, 3), out(3_000_000, 0, 1)];
    let (tx, _) = SpecTxBuilder {}.build_commitment_transaction(true, 1, &params, 50_000_000, htlcs, 0, 354);
    let order: Vec<(u64, u8, u32)> = tx.htlcs.iter().map(|h| (h.amount_msat, h.script_pubkey[0], h.cltv_expiry)).collect();
    assert_eq!(order, vec![(1_000_500, 5, 3), (1_000_999, 5, 9), (1_000_000, 9, 9), (2_000_000, 1, 9), (3_000_000, 0, 1)]);
    // Both sides list the same outputs in the same order.
    let htlcs = vec![out(3_000_000, 0, 1), out(1_000_500, 5, 3), out(2_000_000, 1, 9), out(1_000_999, 5, 9), out(1_000_000, 9, 9)];
    let (tx2, _) = SpecTxBuilder {}.build_commitment_transaction(true, 1, &params, 50_000_000, htlcs, 0, 354);
    let order2: Vec<(u64, u8, u32)> = tx2.htlcs.iter().map(|h| (h.amount_msat, h.script_pubkey[0], h.cltv_expiry)).collect();
    assert_eq!(order, order2);
}
