use lightning::chan_utils::ChannelTypeFeatures;
use bitcoin::secp256k1::{Message, PublicKey, Secp256k1, SecretKey};
use bitcoin::sighash::{EcdsaSighashType, SighashCache};
use bitcoin::transaction::Version;
use bitcoin::{absolute::LockTime, Amount, OutPoint, ScriptBuf, Sequence, Transaction, TxIn, TxOut, Txid, Witness};
use lightning::signer::{
    EnforcementState, HtlcTxInput, HtlcTxOutput, SignerError, SignerOp, TestChannelSigner, INITIAL_REVOKED_COMMITMENT_NUMBER,
};
use lightning::commitment::ChannelTransactionParameters;

fn params() -> ChannelTransactionParameters {
    ChannelTransactionParameters {
        channel_value_satoshis: 1_000_000,
        is_outbound_from_holder: true,
        channel_type_features: ChannelTypeFeatures::anchors_zero_htlc_fee_and_dependencies(),
    }
}

fn signer_at(last_holder_commitment: u64, last_holder_revoked_commitment: u64) -> TestChannelSigner {
    let mut state = EnforcementState::new();
    state.last_holder_commitment = last_holder_commitment;
    state.last_holder_revoked_commitment = last_holder_revoked_commitment;
    TestChannelSigner::new_with_revoked(params(), state, false)
}

#[test]
fn new_state_starts_at_initial_counters() {
    let signer = TestChannelSigner::new(params());
    let state = signer.get_enforcement_state();
    assert_eq!(state.last_counterparty_commitment, INITIAL_REVOKED_COMMITMENT_NUMBER);
    assert_eq!(state.last_counterparty_revoked_commitment, INITIAL_REVOKED_COMMITMENT_NUMBER);
    assert_eq!(state.last_holder_revoked_commitment, INITIAL_REVOKED_COMMITMENT_NUMBER);
    assert_eq!(state.last_holder_commitment, INITIAL_REVOKED_COMMITMENT_NUMBER);
    assert!(state.disabled_signer_ops.is_empty());
    assert_eq!(INITIAL_REVOKED_COMMITMENT_NUMBER, 1 << 48);
    assert!(!signer.disable_revocation_policy_check);
    assert_eq!(*signer.channel_type_features(), ChannelTypeFeatures::anchors_zero_htlc_fee_and_dependencies());
}

#[test]
fn all_signer_ops_listed_once() {
    let all = SignerOp::all();
    assert_eq!(all.len(), 13);
    for (i, op) in all.iter().enumerate() {
        assert!(!all[i + 1..].contains(op));
    }
    assert_eq!(all[0], SignerOp::GetPerCommitmentPoint);
    assert_eq!(all[12], SignerOp::SignChannelAnnouncementWithFundingKey);
}

#[test]
fn revocation_sequencing() {
    // Holder commitments down to 4 are validated; 7 is the last revoked.
    let mut signer = signer_at(4, 7);
    assert_eq!(signer.release_commitment_secret(6), Ok(()));
    assert_eq!(signer.release_commitment_secret(5), Ok(()));
    // Stale: 6 is older than the last revoked.
    assert_eq!(signer.release_commitment_secret(6), Err(SignerError::OutOfSequence));
    // Skips 4.
    assert_eq!(signer.release_commitment_secret(3), Err(SignerError::OutOfSequence));
    // The current one again is fine.
    assert_eq!(signer.release_commitment_secret(5), Ok(()));
    assert_eq!(signer.get_enforcement_state().last_holder_revoked_commitment, 5);
    // 4 is the last validated commitment: it cannot be revoked yet.
    assert_eq!(signer.release_commitment_secret(4), Err(SignerError::UnvalidatedCommitment));
    assert_eq!(signer.validate_holder_commitment(3), Ok(()));
    assert_eq!(signer.release_commitment_secret(4), Ok(()));
    assert_eq!(signer.validate_holder_commitment(1), Err(SignerError::OutOfSequence));
}

#[test]
fn disabled_ops_fail_until_enabled() {
    let mut signer = signer_at(4, 7);
    signer.disable_op(SignerOp::ReleaseCommitmentSecret);
    signer.disable_op(SignerOp::ReleaseCommitmentSecret);
    assert!(!signer.is_signer_available(SignerOp::ReleaseCommitmentSecret));
    assert!(signer.is_signer_available(SignerOp::SignClosingTransaction));
    assert_eq!(signer.release_commitment_secret(6), Err(SignerError::OpDisabled));
    assert_eq!(signer.get_enforcement_state().last_holder_revoked_commitment, 7);
    signer.enable_op(SignerOp::ReleaseCommitmentSecret);
    assert!(signer.is_signer_available(SignerOp::ReleaseCommitmentSecret));
    assert_eq!(signer.release_commitment_secret(6), Ok(()));
    signer.disable_op(SignerOp::SignClosingTransaction);
    assert_eq!(signer.check_available(SignerOp::SignClosingTransaction), Err(SignerError::OpDisabled));
    assert_eq!(signer.check_available(SignerOp::GetPerCommitmentPoint), Ok(()));
}

#[test]
fn holder_signatures_stay_in_unrevoked_window() {
    let signer = signer_at(4, 7);
    assert_eq!(signer.sign_holder_commitment(6), Ok(()));
    assert_eq!(signer.sign_holder_commitment(5), Ok(()));
    assert_eq!(signer.sign_holder_commitment(7), Err(SignerError::RevokedCommitment));
    assert_eq!(htlc_check(&signer, 4, true), Err(SignerError::RevokedCommitment));
    assert_eq!(htlc_check(&signer, 5, true), Ok(()));
    let mut state = EnforcementState::new();
    state.last_holder_revoked_commitment = 7;
    let lax = TestChannelSigner::new_with_revoked(params(), state, true);
    assert_eq!(lax.sign_holder_commitment(7), Ok(()));
}

#[test]
fn counterparty_commitments_and_revocations() {
    let mut signer = TestChannelSigner::new(params());
    let top = INITIAL_REVOKED_COMMITMENT_NUMBER;
    assert_eq!(signer.sign_counterparty_commitment(top - 1), Ok(()));
    assert_eq!(signer.sign_counterparty_commitment(top - 2), Ok(()));
    // Three ahead of the last revocation.
    assert_eq!(signer.sign_counterparty_commitment(top - 3), Err(SignerError::TooFarAhead));
    assert_eq!(signer.validate_counterparty_revocation(top - 1), Ok(()));
    assert_eq!(signer.sign_counterparty_commitment(top - 3), Ok(()));
    assert_eq!(signer.sign_counterparty_commitment(top - 5), Err(SignerError::OutOfSequence));
    assert_eq!(signer.validate_counterparty_revocation(top - 3), Err(SignerError::OutOfSequence));
    assert_eq!(signer.get_enforcement_state().last_counterparty_commitment, top - 3);
}

#[test]
fn anchor_inputs_spend_first_two_outputs() {
    let mut signer = TestChannelSigner::new(params());
    assert_eq!(signer.sign_holder_anchor_input(0), Ok(()));
    assert_eq!(signer.sign_holder_anchor_input(1), Ok(()));
    assert_eq!(signer.sign_holder_anchor_input(2), Err(SignerError::NotAnAnchorInput));
    signer.disable_op(SignerOp::SignHolderAnchorInput);
    assert_eq!(signer.sign_holder_anchor_input(2), Err(SignerError::NotAnAnchorInput));
    assert_eq!(signer.sign_holder_anchor_input(1), Err(SignerError::OpDisabled));
}

#[test]
fn overwrite_parameters_keeps_state() {
    let mut signer = signer_at(4, 7);
    let new_params = ChannelTransactionParameters { channel_value_satoshis: 5, ..params() };
    signer.overwrite_channel_parameters(&new_params);
    assert_eq!(signer.channel_parameters, new_params);
    assert_eq!(signer.get_enforcement_state().last_holder_revoked_commitment, 7);
}

#[test]
fn availability_gated_operations() {
    let mut signer = TestChannelSigner::new(params());
    assert_eq!(signer.get_per_commitment_point(), Ok(()));
    assert_eq!(signer.punish_revokeable_output(), Ok(()));
    assert_eq!(signer.sign_closing_transaction(), Ok(()));
    signer.disable_op(SignerOp::SignCounterpartyHtlcTransaction);
    assert_eq!(signer.sweep_counterparty_offered_htlc_output(), Err(SignerError::OpDisabled));
    assert_eq!(signer.sweep_counterparty_received_htlc_output(), Err(SignerError::OpDisabled));
    assert_eq!(signer.sign_counterparty_htlc_transaction(), Err(SignerError::OpDisabled));
    assert_eq!(signer.sign_justice_revoked_htlc(), Ok(()));
    signer.disable_op(SignerOp::SignJusticeRevokedHtlc);
    assert_eq!(signer.punish_htlc_output(), Err(SignerError::OpDisabled));
    assert_eq!(signer.sign_justice_revoked_htlc(), Err(SignerError::OpDisabled));
    assert_eq!(signer.sign_justice_revoked_output(), Ok(()));
    signer.enable_op(SignerOp::SignCounterpartyHtlcTransaction);
    assert_eq!(signer.sign_counterparty_htlc_transaction(), Ok(()));
}

fn htlc_tx(sequence: u32) -> Transaction {
    Transaction {
        version: Version::TWO,
        lock_time: LockTime::ZERO,
        input: vec![TxIn {
            previous_output: OutPoint { txid: <Txid as bitcoin::hashes::Hash>::from_byte_array([5u8; 32]), vout: 2 },
            script_sig: ScriptBuf::new(),
            sequence: Sequence(sequence),
            witness: Witness::new(),
        }],
        output: vec![TxOut { value: Amount::from_sat(9_000), script_pubkey: ScriptBuf::from_bytes(vec![0x00, 0x20, 7, 7]) }],
    }
}

// Signs the HTLC input of `tx` as the counterparty would, with `sighash_type`.
fn counterparty_sig(tx: &Transaction, sighash_type: EcdsaSighashType) -> (bitcoin::secp256k1::ecdsa::Signature, PublicKey) {
    let secp = Secp256k1::new();
    let sk = SecretKey::from_slice(&[0x11; 32]).unwrap();
    let script = ScriptBuf::from_bytes(vec![0x51]);
    let hash = SighashCache::new(tx).p2wsh_signature_hash(0, &script, Amount::from_sat(10_000), sighash_type).unwrap();
    let msg = Message::from_digest(<bitcoin::sighash::SegwitV0Sighash as bitcoin::hashes::Hash>::to_byte_array(hash));
    (secp.sign_ecdsa(&msg, &sk), PublicKey::from_secret_key(&secp, &sk))
}

fn htlc_check(signer: &TestChannelSigner, per_commitment_number: u64, valid: bool) -> Result<(), SignerError> {
    let tx = htlc_tx(1);
    let sighash_type = if signer.channel_type_features().supports_anchors_zero_fee_htlc_tx() {
        EcdsaSighashType::SinglePlusAnyoneCanPay
    } else {
        EcdsaSighashType::All
    };
    let (sig, key) = counterparty_sig(&tx, if valid { sighash_type } else { EcdsaSighashType::None });
    let expected_input = HtlcTxInput { previous_txid: [5u8; 32], previous_vout: 2, sequence: 1 };
    let expected_output = HtlcTxOutput { value_sat: 9_000, script_pubkey: vec![0x00, 0x20, 7, 7] };
    signer.sign_holder_htlc_transaction(&tx, 0, per_commitment_number, &expected_input, &expected_output, &vec![0x51], 10_000, &sig, &key)
}

#[test]
fn holder_htlc_transaction_checks() {
    let signer = signer_at(4, 7);
    assert_eq!(htlc_check(&signer, 6, true), Ok(()));
    // Signed with another sighash flag than the channel type asks for.
    assert_eq!(htlc_check(&signer, 6, false), Err(SignerError::InvalidSignature));
    assert_eq!(htlc_check(&signer, 7, true), Err(SignerError::RevokedCommitment));

    let tx = htlc_tx(1);
    let (sig, key) = counterparty_sig(&tx, EcdsaSighashType::SinglePlusAnyoneCanPay);
    let good_output = HtlcTxOutput { value_sat: 9_000, script_pubkey: vec![0x00, 0x20, 7, 7] };
    let wrong_input = HtlcTxInput { previous_txid: [5u8; 32], previous_vout: 3, sequence: 1 };
    assert_eq!(
        signer.sign_holder_htlc_transaction(&tx, 0, 6, &wrong_input, &good_output, &vec![0x51], 10_000, &sig, &key),
        Err(SignerError::TransactionMismatch)
    );
    let good_input = HtlcTxInput { previous_txid: [5u8; 32], previous_vout: 2, sequence: 1 };
    let wrong_output = HtlcTxOutput { value_sat: 9_001, script_pubkey: vec![0x00, 0x20, 7, 7] };
    assert_eq!(
        signer.sign_holder_htlc_transaction(&tx, 0, 6, &good_input, &wrong_output, &vec![0x51], 10_000, &sig, &key),
        Err(SignerError::TransactionMismatch)
    );
    // No input at that index.
    assert_eq!(
        signer.sign_holder_htlc_transaction(&tx, 1, 6, &good_input, &good_output, &vec![0x51], 10_000, &sig, &key),
        Err(SignerError::TransactionMismatch)
    );
    // The wrong amount changes the sighash.
    assert_eq!(
        signer.sign_holder_htlc_transaction(&tx, 0, 6, &good_input, &good_output, &vec![0x51], 10_001, &sig, &key),
        Err(SignerError::InvalidSignature)
    );

    // A legacy channel asks for SIGHASH_ALL.
    let legacy = ChannelTransactionParameters { channel_type_features: ChannelTypeFeatures::only_static_remote_key(), ..params() };
    let mut state = EnforcementState::new();
    state.last_holder_revoked_commitment = 7;
    let legacy_signer = TestChannelSigner::new_with_revoked(legacy, state, false);
    assert_eq!(htlc_check(&legacy_signer, 5, true), Ok(()));
    let (sig, key) = counterparty_sig(&tx, EcdsaSighashType::SinglePlusAnyoneCanPay);
    assert_eq!(
        legacy_signer.sign_holder_htlc_transaction(&tx, 0, 5, &good_input, &good_output, &vec![0x51], 10_000, &sig, &key),
        Err(SignerError::InvalidSignature)
    );
}
