use lightning::claims_sweeper::{htlc_claim_batches, CLAIM_TX_RESERVED_WEIGHT, HTLC_CLAIM_WEIGHT, TRUC_MAX_WEIGHT};

#[test]
fn claim_batches_cover_every_claim() {
    assert_eq!(htlc_claim_batches(0, HTLC_CLAIM_WEIGHT, CLAIM_TX_RESERVED_WEIGHT, TRUC_MAX_WEIGHT), Vec::<usize>::new());
    assert_eq!(htlc_claim_batches(59, HTLC_CLAIM_WEIGHT, CLAIM_TX_RESERVED_WEIGHT, TRUC_MAX_WEIGHT), vec![59]);
    assert_eq!(htlc_claim_batches(60, HTLC_CLAIM_WEIGHT, CLAIM_TX_RESERVED_WEIGHT, TRUC_MAX_WEIGHT), vec![59, 1]);
    assert_eq!(htlc_claim_batches(120, HTLC_CLAIM_WEIGHT, CLAIM_TX_RESERVED_WEIGHT, TRUC_MAX_WEIGHT), vec![59, 59, 2]);
    assert_eq!(htlc_claim_batches(7, 10, 5, 35), vec![3, 3, 1]);
    let batches = htlc_claim_batches(483, HTLC_CLAIM_WEIGHT, CLAIM_TX_RESERVED_WEIGHT, TRUC_MAX_WEIGHT);
    assert_eq!(batches.iter().sum::<usize>(), 483);
    for b in &batches {
        assert!(CLAIM_TX_RESERVED_WEIGHT + *b as u64 * HTLC_CLAIM_WEIGHT <= TRUC_MAX_WEIGHT);
    }
}
