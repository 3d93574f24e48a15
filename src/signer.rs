//! A policy-enforcing signer: it tracks the channel's commitment and
//! revocation counters and refuses any signature or secret that would break
//! the channel's safety rules.

use vstd::prelude::*;

use bitcoin::secp256k1::ecdsa::Signature;
use bitcoin::secp256k1::{Message, PublicKey, Secp256k1};
use bitcoin::sighash::{EcdsaSighashType, SighashCache};
use bitcoin::{Amount, Script, Transaction};

use crate::chan_utils::ChannelTypeFeatures;
use crate::commitment::ChannelTransactionParameters;

verus! {

/// Initial value of the commitment counters, which count downwards.
pub const INITIAL_REVOKED_COMMITMENT_NUMBER: u64 = 0x1_0000_0000_0000;

/// The operations of a signer, each of which can be switched off.
#[derive(Clone, Copy, Debug, PartialEq, Eq, Hash, Structural)]
pub enum SignerOp {
    GetPerCommitmentPoint,
    ReleaseCommitmentSecret,
    ValidateHolderCommitment,
    SignCounterpartyCommitment,
    ValidateCounterpartyRevocation,
    SignHolderCommitment,
    SignJusticeRevokedOutput,
    SignJusticeRevokedHtlc,
    SignHolderHtlcTransaction,
    SignCounterpartyHtlcTransaction,
    SignClosingTransaction,
    SignHolderAnchorInput,
    SignChannelAnnouncementWithFundingKey,
}

pub open spec fn all_signer_ops() -> Seq<SignerOp> {
    seq![
        SignerOp::GetPerCommitmentPoint,
        SignerOp::ReleaseCommitmentSecret,
        SignerOp::ValidateHolderCommitment,
        SignerOp::SignCounterpartyCommitment,
        SignerOp::ValidateCounterpartyRevocation,
        SignerOp::SignHolderCommitment,
        SignerOp::SignJusticeRevokedOutput,
        SignerOp::SignJusticeRevokedHtlc,
        SignerOp::SignHolderHtlcTransaction,
        SignerOp::SignCounterpartyHtlcTransaction,
        SignerOp::SignClosingTransaction,
        SignerOp::SignHolderAnchorInput,
        SignerOp::SignChannelAnnouncementWithFundingKey,
    ]
}

impl SignerOp {
    /// Every operation, once each.
    pub fn all() -> (r: Vec<Self>)
        ensures
            r@ == all_signer_ops(),
            forall|op: SignerOp| r@.contains(op),
    {
        let r = vec![
            SignerOp::GetPerCommitmentPoint,
            SignerOp::ReleaseCommitmentSecret,
            SignerOp::ValidateHolderCommitment,
            SignerOp::SignCounterpartyCommitment,
            SignerOp::ValidateCounterpartyRevocation,
            SignerOp::SignHolderCommitment,
            SignerOp::SignJusticeRevokedOutput,
            SignerOp::SignJusticeRevokedHtlc,
            SignerOp::SignHolderHtlcTransaction,
            SignerOp::SignCounterpartyHtlcTransaction,
            SignerOp::SignClosingTransaction,
            SignerOp::SignHolderAnchorInput,
            SignerOp::SignChannelAnnouncementWithFundingKey,
        ];
        assert(r@ =~= all_signer_ops());
        assert forall|op: SignerOp| r@.contains(op) by {
            let i: int = match op {
                SignerOp::GetPerCommitmentPoint => 0,
                SignerOp::ReleaseCommitmentSecret => 1,
                SignerOp::ValidateHolderCommitment => 2,
                SignerOp::SignCounterpartyCommitment => 3,
                SignerOp::ValidateCounterpartyRevocation => 4,
                SignerOp::SignHolderCommitment => 5,
                SignerOp::SignJusticeRevokedOutput => 6,
                SignerOp::SignJusticeRevokedHtlc => 7,
                SignerOp::SignHolderHtlcTransaction => 8,
                SignerOp::SignCounterpartyHtlcTransaction => 9,
                SignerOp::SignClosingTransaction => 10,
                SignerOp::SignHolderAnchorInput => 11,
                SignerOp::SignChannelAnnouncementWithFundingKey => 12,
            };
            assert(r@[i] == op);
        }
        r
    }
}

/// Why the signer refused.
#[derive(Clone, Copy, Debug, PartialEq, Eq, Structural)]
pub enum SignerError {
    /// The operation was switched off.
    OpDisabled,
    /// The index is neither the current one nor the next.
    OutOfSequence,
    /// The holder commitment to revoke has not been validated yet.
    UnvalidatedCommitment,
    /// The holder commitment is not one of the two unrevoked ones.
    RevokedCommitment,
    /// The counterparty would hold more than two unrevoked commitments.
    TooFarAhead,
    /// The input does not spend an anchor output.
    NotAnAnchorInput,
    /// The HTLC transaction's input or output is not the expected one.
    TransactionMismatch,
    /// The counterparty's signature does not verify.
    InvalidSignature,
}

/// The counters of one channel, all counting downwards, and the operations
/// that are switched off.
#[derive(Debug)]
pub struct EnforcementState {
    /// The last counterparty commitment signed.
    pub last_counterparty_commitment: u64,
    /// The last counterparty commitment revoked.
    pub last_counterparty_revoked_commitment: u64,
    /// The last holder commitment revoked.
    pub last_holder_revoked_commitment: u64,
    /// The last holder commitment validated.
    pub last_holder_commitment: u64,
    /// The operations that fail at once; an operation may be listed more than once.
    pub disabled_signer_ops: Vec<SignerOp>,
}

pub ghost struct EnforcementStateView {
    pub last_counterparty_commitment: u64,
    pub last_counterparty_revoked_commitment: u64,
    pub last_holder_revoked_commitment: u64,
    pub last_holder_commitment: u64,
    pub disabled: Set<SignerOp>,
}

impl View for EnforcementState {
    type V = EnforcementStateView;

    open spec fn view(&self) -> EnforcementStateView {
        EnforcementStateView {
            last_counterparty_commitment: self.last_counterparty_commitment,
            last_counterparty_revoked_commitment: self.last_counterparty_revoked_commitment,
            last_holder_revoked_commitment: self.last_holder_revoked_commitment,
            last_holder_commitment: self.last_holder_commitment,
            disabled: self.disabled_signer_ops@.to_set(),
        }
    }
}

/// A new channel's state: every counter at its initial value, nothing switched off.
pub open spec fn initial_state_view() -> EnforcementStateView {
    EnforcementStateView {
        last_counterparty_commitment: INITIAL_REVOKED_COMMITMENT_NUMBER,
        last_counterparty_revoked_commitment: INITIAL_REVOKED_COMMITMENT_NUMBER,
        last_holder_revoked_commitment: INITIAL_REVOKED_COMMITMENT_NUMBER,
        last_holder_commitment: INITIAL_REVOKED_COMMITMENT_NUMBER,
        disabled: Set::empty(),
    }
}

impl EnforcementState {
    /// The state of a new channel.
    pub fn new() -> (r: Self)
        ensures
            r@ == initial_state_view(),
    {
        let r = EnforcementState {
            last_counterparty_commitment: INITIAL_REVOKED_COMMITMENT_NUMBER,
            last_counterparty_revoked_commitment: INITIAL_REVOKED_COMMITMENT_NUMBER,
            last_holder_revoked_commitment: INITIAL_REVOKED_COMMITMENT_NUMBER,
            last_holder_commitment: INITIAL_REVOKED_COMMITMENT_NUMBER,
            disabled_signer_ops: Vec::new(),
        };
        assert(r.disabled_signer_ops@.to_set() =~= Set::<SignerOp>::empty());
        r
    }
}

/// Whether `idx` is the current value of a downward counter or the next one.
pub open spec fn current_or_next(idx: u64, last: u64) -> bool {
    idx == last || idx + 1 == last
}

/// Releasing the secret of holder commitment `idx`: only the last revoked
/// one or the next, and never one that has not been validated.
pub open spec fn release_commitment_secret_spec(s: EnforcementStateView, idx: u64) -> Result<EnforcementStateView, SignerError> {
    if s.disabled.contains(SignerOp::ReleaseCommitmentSecret) {
        Err(SignerError::OpDisabled)
    } else if !current_or_next(idx, s.last_holder_revoked_commitment) {
        Err(SignerError::OutOfSequence)
    } else if idx <= s.last_holder_commitment {
        Err(SignerError::UnvalidatedCommitment)
    } else {
        Ok(EnforcementStateView { last_holder_revoked_commitment: idx, ..s })
    }
}

/// Validating holder commitment `idx`: the last validated one or the next.
pub open spec fn validate_holder_commitment_spec(s: EnforcementStateView, idx: u64) -> Result<EnforcementStateView, SignerError> {
    if !current_or_next(idx, s.last_holder_commitment) {
        Err(SignerError::OutOfSequence)
    } else {
        Ok(EnforcementStateView { last_holder_commitment: idx, ..s })
    }
}

/// Validating the counterparty's revocation of `idx`: the last revoked one or the next.
pub open spec fn validate_counterparty_revocation_spec(s: EnforcementStateView, idx: u64) -> Result<EnforcementStateView, SignerError> {
    if s.disabled.contains(SignerOp::ValidateCounterpartyRevocation) {
        Err(SignerError::OpDisabled)
    } else if !current_or_next(idx, s.last_counterparty_revoked_commitment) {
        Err(SignerError::OutOfSequence)
    } else {
        Ok(EnforcementStateView { last_counterparty_revoked_commitment: idx, ..s })
    }
}

/// Signing counterparty commitment `idx`: the last signed one or the next,
/// and at most two ahead of the last one the counterparty revoked.
pub open spec fn sign_counterparty_commitment_spec(s: EnforcementStateView, idx: u64) -> Result<EnforcementStateView, SignerError> {
    if s.disabled.contains(SignerOp::SignCounterpartyCommitment) {
        Err(SignerError::OpDisabled)
    } else if !current_or_next(idx, s.last_counterparty_commitment) {
        Err(SignerError::OutOfSequence)
    } else if idx + 2 < s.last_counterparty_revoked_commitment {
        Err(SignerError::TooFarAhead)
    } else {
        Ok(EnforcementStateView { last_counterparty_commitment: idx, ..s })
    }
}

/// Whether holder commitment `idx` is one of the two after the last revoked one.
pub open spec fn unrevoked_holder_commitment(s: EnforcementStateView, idx: u64) -> bool {
    idx + 1 == s.last_holder_revoked_commitment || idx + 2 == s.last_holder_revoked_commitment
}

/// Signing for holder commitment `idx` (the commitment itself or one of its
/// HTLC transactions) under operation `op`.
pub open spec fn sign_holder_spec(s: EnforcementStateView, op: SignerOp, idx: u64, disable_revocation_policy_check: bool) -> Result<(), SignerError> {
    if s.disabled.contains(op) {
        Err(SignerError::OpDisabled)
    } else if !unrevoked_holder_commitment(s, idx) && !disable_revocation_policy_check {
        Err(SignerError::RevokedCommitment)
    } else {
        Ok(())
    }
}

/// The result of a transition, without its new state.
pub open spec fn outcome(r: Result<EnforcementStateView, SignerError>) -> Result<(), SignerError> {
    match r {
        Ok(_) => Ok(()),
        Err(e) => Err(e),
    }
}

/// The state after a transition: the new one, or the old one where it was refused.
pub open spec fn next_state(s: EnforcementStateView, r: Result<EnforcementStateView, SignerError>) -> EnforcementStateView {
    match r {
        Ok(n) => n,
        Err(_) => s,
    }
}

fn is_current_or_next(idx: u64, last: u64) -> (r: bool)
    ensures
        r == current_or_next(idx, last),
{
    idx == last || idx as u128 + 1 == last as u128
}

/// Revocation secrets are released in sequence. Once the secret of `idx` is
/// released, the only ones that can follow are `idx` again and the next
/// (`idx - 1`): an older commitment is refused as stale, and any later one
/// that skips a commitment is refused too.
pub proof fn lemma_release_sequencing(s: EnforcementStateView, idx: u64, later: u64)
    requires
        release_commitment_secret_spec(s, idx) is Ok,
    ensures
        release_commitment_secret_spec(release_commitment_secret_spec(s, idx)->Ok_0, later) is Ok ==> (later == idx || later + 1 == idx),
        later > idx ==> release_commitment_secret_spec(release_commitment_secret_spec(s, idx)->Ok_0, later)
            == Err::<EnforcementStateView, SignerError>(SignerError::OutOfSequence),
        later + 2 <= idx ==> release_commitment_secret_spec(release_commitment_secret_spec(s, idx)->Ok_0, later)
            == Err::<EnforcementStateView, SignerError>(SignerError::OutOfSequence),
{
}

/// A Bitcoin transaction; what the signer reads of it is `tx_input_fields`
/// and `tx_output_fields`.
#[verifier::external_type_specification]
#[verifier::external_body]
pub struct ExTransaction(Transaction);

/// A `secp256k1` public key, carried to signature verification.
#[verifier::external_type_specification]
#[verifier::external_body]
pub struct ExPublicKey(PublicKey);

/// Input `index` of `tx` as (previous txid, previous output index, sequence,
/// script sig, number of witness items); `None` past the last input.
pub uninterp spec fn tx_input_fields(tx: Transaction, index: int) -> Option<(Seq<u8>, u32, u32, Seq<u8>, nat)>;

/// Output `index` of `tx` as (value in satoshis, script); `None` past the last output.
pub uninterp spec fn tx_output_fields(tx: Transaction, index: int) -> Option<(u64, Seq<u8>)>;

/// The BIP 143 signature hash of input `input` of `tx` spending a P2WSH
/// output of `value_sat` with `witness_script`; `None` past the last input.
pub uninterp spec fn p2wsh_sighash(tx: Transaction, input: int, witness_script: Seq<u8>, value_sat: u64, sighash_type: u32) -> Option<Seq<u8>>;

/// Whether `sig` is a valid ECDSA signature by `key` of the 32-byte digest `msg`.
pub uninterp spec fn ecdsa_verifies(msg: Seq<u8>, sig: Signature, key: PublicKey) -> bool;

/// Relies on the public fields of `bitcoin::Transaction` and `TxIn`.
#[verifier::external_body]
fn read_tx_input(tx: &Transaction, index: usize) -> (r: Option<([u8; 32], u32, u32, Vec<u8>, usize)>)
    ensures
        tx_input_fields(*tx, index as int) == match r {
            Some(f) => Some((f.0@, f.1, f.2, f.3@, f.4 as nat)),
            None => None,
        },
{
    tx.input.get(index).map(|i| {
        (bitcoin::hashes::Hash::to_byte_array(i.previous_output.txid), i.previous_output.vout, i.sequence.0, i.script_sig.to_bytes(), i.witness.len())
    })
}

/// Relies on the public fields of `bitcoin::Transaction` and `TxOut`.
#[verifier::external_body]
fn read_tx_output(tx: &Transaction, index: usize) -> (r: Option<(u64, Vec<u8>)>)
    ensures
        tx_output_fields(*tx, index as int) == match r {
            Some(f) => Some((f.0, f.1@)),
            None => None,
        },
{
    tx.output.get(index).map(|o| (o.value.to_sat(), o.script_pubkey.to_bytes()))
}

/// Relies on `bitcoin::sighash::SighashCache::p2wsh_signature_hash`, which
/// fails only for an input past the last one.
#[verifier::external_body]
fn p2wsh_signature_hash(tx: &Transaction, input: usize, witness_script: &Vec<u8>, value_sat: u64, sighash_type: u32) -> (r: Option<[u8; 32]>)
    ensures
        p2wsh_sighash(*tx, input as int, witness_script@, value_sat, sighash_type) == match r {
            Some(h) => Some(h@),
            None => None,
        },
{
    let mut cache = SighashCache::new(tx);
    let t = EcdsaSighashType::from_consensus(sighash_type);
    cache.p2wsh_signature_hash(input, Script::from_bytes(witness_script), Amount::from_sat(value_sat), t).ok().map(bitcoin::hashes::Hash::to_byte_array)
}

/// Relies on `secp256k1::Secp256k1::verify_ecdsa` over the digest `msg`.
#[verifier::external_body]
fn verify_ecdsa(msg: &[u8; 32], sig: &Signature, key: &PublicKey) -> (r: bool)
    ensures
        r == ecdsa_verifies(msg@, *sig, *key),
{
    Secp256k1::verification_only().verify_ecdsa(&Message::from_digest(*msg), sig, key).is_ok()
}

/// The unsigned input that an HTLC transaction must have: it spends the
/// HTLC output, with an empty script sig and no witness yet.
pub struct HtlcTxInput {
    pub previous_txid: [u8; 32],
    pub previous_vout: u32,
    pub sequence: u32,
}

/// The output that an HTLC transaction must have at the index of its input.
pub struct HtlcTxOutput {
    pub value_sat: u64,
    pub script_pubkey: Vec<u8>,
}

/// The sighash flag of the counterparty's HTLC signatures: `SINGLE|ANYONECANPAY`
/// on anchor channels, `ALL` otherwise.
pub open spec fn htlc_sighash_type(ct: ChannelTypeFeatures) -> u32 {
    if ct.anchors_zero_fee_htlc_tx { 0x83 } else { 0x01 }
}

/// Whether input `input` of `tx` is `expected`.
pub open spec fn htlc_input_matches(tx: Transaction, input: int, expected: HtlcTxInput) -> bool {
    tx_input_fields(tx, input) == Some((expected.previous_txid@, expected.previous_vout, expected.sequence, Seq::<u8>::empty(), 0nat))
}

/// Whether output `input` of `tx` is `expected`.
pub open spec fn htlc_output_matches(tx: Transaction, input: int, expected: HtlcTxOutput) -> bool {
    tx_output_fields(tx, input) == Some((expected.value_sat, expected.script_pubkey@))
}

/// Whether the counterparty's signature verifies over the HTLC input's sighash.
pub open spec fn htlc_signature_valid(
    tx: Transaction,
    input: int,
    witness_script: Seq<u8>,
    htlc_value_sat: u64,
    ct: ChannelTypeFeatures,
    sig: Signature,
    key: PublicKey,
) -> bool {
    match p2wsh_sighash(tx, input, witness_script, htlc_value_sat, htlc_sighash_type(ct)) {
        Some(h) => ecdsa_verifies(h, sig, key),
        None => false,
    }
}

fn bytes_eq(a: &[u8], b: &[u8]) -> (r: bool)
    ensures
        r == (a@ == b@),
{
    if a.len() != b.len() {
        return false;
    }
    let mut i: usize = 0;
    while i < a.len()
        invariant
            a@.len() == b@.len(),
            i <= a@.len(),
            forall|j: int| 0 <= j < i ==> a@[j] == b@[j],
        decreases a@.len() - i,
    {
        if a[i] != b[i] {
            return false;
        }
        i = i + 1;
    }
    assert(a@ =~= b@);
    true
}

/// A signer that checks each request against the channel's counters before
/// the signature is made.
#[derive(Debug)]
pub struct TestChannelSigner {
    pub channel_parameters: ChannelTransactionParameters,
    /// The channel's counters and switched-off operations.
    pub state: EnforcementState,
    /// Allows signing revoked holder commitments.
    pub disable_revocation_policy_check: bool,
}

impl TestChannelSigner {
    /// A signer for a new channel.
    pub fn new(channel_parameters: ChannelTransactionParameters) -> (r: Self)
        ensures
            r.channel_parameters == channel_parameters,
            r.state@ == initial_state_view(),
            !r.disable_revocation_policy_check,
    {
        TestChannelSigner { channel_parameters, state: EnforcementState::new(), disable_revocation_policy_check: false }
    }

    /// A signer that continues from an existing state.
    pub fn new_with_revoked(
        channel_parameters: ChannelTransactionParameters,
        state: EnforcementState,
        disable_revocation_policy_check: bool,
    ) -> (r: Self)
        ensures
            r.channel_parameters == channel_parameters,
            r.state@ == state@,
            r.disable_revocation_policy_check == disable_revocation_policy_check,
    {
        TestChannelSigner { channel_parameters, state, disable_revocation_policy_check }
    }

    pub fn channel_type_features(&self) -> (r: &ChannelTypeFeatures)
        ensures
            *r == self.channel_parameters.channel_type_features,
    {
        &self.channel_parameters.channel_type_features
    }

    pub fn get_enforcement_state(&self) -> (r: &EnforcementState)
        ensures
            r == &self.state,
    {
        &self.state
    }

    /// Switches `signer_op` back on.
    pub fn enable_op(&mut self, signer_op: SignerOp)
        ensures
            final(self).state@ == (EnforcementStateView { disabled: old(self).state@.disabled.remove(signer_op), ..old(self).state@ }),
            final(self).channel_parameters == old(self).channel_parameters,
            final(self).disable_revocation_policy_check == old(self).disable_revocation_policy_check,
    {
        let ghost before = self.state.disabled_signer_ops@;
        let mut kept: Vec<SignerOp> = Vec::new();
        let mut i: usize = 0;
        while i < self.state.disabled_signer_ops.len()
            invariant
                before == self.state.disabled_signer_ops@,
                i <= before.len(),
                forall|a: SignerOp| #[trigger] kept@.contains(a) <==> (a != signer_op && before.subrange(0, i as int).contains(a)),
            decreases before.len() - i,
        {
            let op = self.state.disabled_signer_ops[i];
            let ghost prefix = before.subrange(0, i as int);
            let ghost kept_before = kept@;
            assert(before.subrange(0, i as int + 1) =~= prefix.push(op));
            if op != signer_op {
                kept.push(op);
            }
            proof {
                broadcast use vstd::seq_lib::lemma_seq_contains_after_push;
                assert forall|a: SignerOp| #[trigger] kept@.contains(a) <==> (a != signer_op && prefix.push(op).contains(a)) by {
                    if op != signer_op {
                        assert(kept@ =~= kept_before.push(op));
                    }
                }
            }
            i = i + 1;
        }
        assert(before.subrange(0, before.len() as int) =~= before);
        assert(kept@.to_set() =~= before.to_set().remove(signer_op));
        self.state.disabled_signer_ops = kept;
    }

    /// Switches `signer_op` off.
    pub fn disable_op(&mut self, signer_op: SignerOp)
        ensures
            final(self).state@ == (EnforcementStateView { disabled: old(self).state@.disabled.insert(signer_op), ..old(self).state@ }),
            final(self).channel_parameters == old(self).channel_parameters,
            final(self).disable_revocation_policy_check == old(self).disable_revocation_policy_check,
    {
        let ghost before = self.state.disabled_signer_ops@;
        self.state.disabled_signer_ops.push(signer_op);
        assert(self.state.disabled_signer_ops@.to_set() =~= before.to_set().insert(signer_op)) by {
            broadcast use vstd::seq_lib::lemma_seq_contains_after_push;
            assert(self.state.disabled_signer_ops@ =~= before.push(signer_op));
        }
    }

    /// Whether `signer_op` is switched on.
    pub fn is_signer_available(&self, signer_op: SignerOp) -> (r: bool)
        ensures
            r == !self.state@.disabled.contains(signer_op),
    {
        let mut i: usize = 0;
        while i < self.state.disabled_signer_ops.len()
            invariant
                i <= self.state.disabled_signer_ops@.len(),
                forall|j: int| 0 <= j < i ==> self.state.disabled_signer_ops@[j] != signer_op,
            decreases self.state.disabled_signer_ops@.len() - i,
        {
            if self.state.disabled_signer_ops[i] == signer_op {
                assert(self.state.disabled_signer_ops@.to_set().contains(signer_op)) by {
                    assert(self.state.disabled_signer_ops@.contains(signer_op));
                }
                return false;
            }
            i = i + 1;
        }
        true
    }

    /// Replaces the channel parameters.
    pub fn overwrite_channel_parameters(&mut self, channel_parameters: &ChannelTransactionParameters)
        ensures
            final(self).channel_parameters == *channel_parameters,
            final(self).state@ == old(self).state@,
            final(self).disable_revocation_policy_check == old(self).disable_revocation_policy_check,
    {
        self.channel_parameters = *channel_parameters;
    }

    /// Refuses an operation that is switched off.
    pub fn check_available(&self, signer_op: SignerOp) -> (r: Result<(), SignerError>)
        ensures
            r == if self.state@.disabled.contains(signer_op) { Err(SignerError::OpDisabled) } else { Ok(()) },
    {
        if self.is_signer_available(signer_op) {
            Ok(())
        } else {
            Err(SignerError::OpDisabled)
        }
    }

    /// Admits releasing the secret of holder commitment `idx`, and records
    /// it as revoked.
    pub fn release_commitment_secret(&mut self, idx: u64) -> (r: Result<(), SignerError>)
        ensures
            r == outcome(release_commitment_secret_spec(old(self).state@, idx)),
            final(self).state@ == next_state(old(self).state@, release_commitment_secret_spec(old(self).state@, idx)),
            final(self).channel_parameters == old(self).channel_parameters,
            final(self).disable_revocation_policy_check == old(self).disable_revocation_policy_check,
    {
        if !self.is_signer_available(SignerOp::ReleaseCommitmentSecret) {
            return Err(SignerError::OpDisabled);
        }
        if !is_current_or_next(idx, self.state.last_holder_revoked_commitment) {
            return Err(SignerError::OutOfSequence);
        }
        if idx <= self.state.last_holder_commitment {
            return Err(SignerError::UnvalidatedCommitment);
        }
        self.state.last_holder_revoked_commitment = idx;
        Ok(())
    }

    /// Admits holder commitment `idx` as validated.
    pub fn validate_holder_commitment(&mut self, idx: u64) -> (r: Result<(), SignerError>)
        ensures
            r == outcome(validate_holder_commitment_spec(old(self).state@, idx)),
            final(self).state@ == next_state(old(self).state@, validate_holder_commitment_spec(old(self).state@, idx)),
            final(self).channel_parameters == old(self).channel_parameters,
            final(self).disable_revocation_policy_check == old(self).disable_revocation_policy_check,
    {
        if !is_current_or_next(idx, self.state.last_holder_commitment) {
            return Err(SignerError::OutOfSequence);
        }
        self.state.last_holder_commitment = idx;
        Ok(())
    }

    /// Admits the counterparty's revocation of its commitment `idx`.
    pub fn validate_counterparty_revocation(&mut self, idx: u64) -> (r: Result<(), SignerError>)
        ensures
            r == outcome(validate_counterparty_revocation_spec(old(self).state@, idx)),
            final(self).state@ == next_state(old(self).state@, validate_counterparty_revocation_spec(old(self).state@, idx)),
            final(self).channel_parameters == old(self).channel_parameters,
            final(self).disable_revocation_policy_check == old(self).disable_revocation_policy_check,
    {
        if !self.is_signer_available(SignerOp::ValidateCounterpartyRevocation) {
            return Err(SignerError::OpDisabled);
        }
        if !is_current_or_next(idx, self.state.last_counterparty_revoked_commitment) {
            return Err(SignerError::OutOfSequence);
        }
        self.state.last_counterparty_revoked_commitment = idx;
        Ok(())
    }

    /// Admits signing counterparty commitment `commitment_number`.
    pub fn sign_counterparty_commitment(&mut self, commitment_number: u64) -> (r: Result<(), SignerError>)
        ensures
            r == outcome(sign_counterparty_commitment_spec(old(self).state@, commitment_number)),
            final(self).state@ == next_state(old(self).state@, sign_counterparty_commitment_spec(old(self).state@, commitment_number)),
            final(self).channel_parameters == old(self).channel_parameters,
            final(self).disable_revocation_policy_check == old(self).disable_revocation_policy_check,
    {
        if !self.is_signer_available(SignerOp::SignCounterpartyCommitment) {
            return Err(SignerError::OpDisabled);
        }
        // The counters count downwards: the same number as before, or the next.
        if !is_current_or_next(commitment_number, self.state.last_counterparty_commitment) {
            return Err(SignerError::OutOfSequence);
        }
        // The counterparty may hold at most two unrevoked commitments: the
        // last one and the one being signed.
        if (commitment_number as u128) + 2 < self.state.last_counterparty_revoked_commitment as u128 {
            return Err(SignerError::TooFarAhead);
        }
        self.state.last_counterparty_commitment = commitment_number;
        Ok(())
    }

    fn check_unrevoked_holder(&self, signer_op: SignerOp, commitment_number: u64) -> (r: Result<(), SignerError>)
        ensures
            r == sign_holder_spec(self.state@, signer_op, commitment_number, self.disable_revocation_policy_check),
    {
        if !self.is_signer_available(signer_op) {
            return Err(SignerError::OpDisabled);
        }
        let last = self.state.last_holder_revoked_commitment as u128;
        let n = commitment_number as u128;
        if n + 1 != last && n + 2 != last && !self.disable_revocation_policy_check {
            return Err(SignerError::RevokedCommitment);
        }
        Ok(())
    }

    /// Admits signing holder commitment `commitment_number`: one of the two
    /// after the last revoked one.
    pub fn sign_holder_commitment(&self, commitment_number: u64) -> (r: Result<(), SignerError>)
        ensures
            r == sign_holder_spec(self.state@, SignerOp::SignHolderCommitment, commitment_number, self.disable_revocation_policy_check),
    {
        self.check_unrevoked_holder(SignerOp::SignHolderCommitment, commitment_number)
    }

    /// Admits signing input `input` of an HTLC transaction of holder
    /// commitment `per_commitment_number`: the commitment must be unrevoked,
    /// the input and the output at its index must be the expected ones, and
    /// the counterparty's signature must verify over the input's sighash.
    pub fn sign_holder_htlc_transaction(
        &self,
        htlc_tx: &Transaction,
        input: usize,
        per_commitment_number: u64,
        expected_input: &HtlcTxInput,
        expected_output: &HtlcTxOutput,
        witness_script: &Vec<u8>,
        htlc_value_sat: u64,
        counterparty_sig: &Signature,
        countersignatory_htlc_key: &PublicKey,
    ) -> (r: Result<(), SignerError>)
        ensures
            r == match sign_holder_spec(self.state@, SignerOp::SignHolderHtlcTransaction, per_commitment_number,
                self.disable_revocation_policy_check) {
                Err(e) => Err(e),
                Ok(_) => if !htlc_input_matches(*htlc_tx, input as int, *expected_input)
                    || !htlc_output_matches(*htlc_tx, input as int, *expected_output) {
                    Err(SignerError::TransactionMismatch)
                } else if !htlc_signature_valid(*htlc_tx, input as int, witness_script@, htlc_value_sat,
                    self.channel_parameters.channel_type_features, *counterparty_sig, *countersignatory_htlc_key) {
                    Err(SignerError::InvalidSignature)
                } else {
                    Ok(())
                },
            },
    {
        match self.check_unrevoked_holder(SignerOp::SignHolderHtlcTransaction, per_commitment_number) {
            Err(e) => {
                return Err(e);
            },
            Ok(_) => {},
        }
        let input_ok = match read_tx_input(htlc_tx, input) {
            Some(f) => {
                let ok = bytes_eq(f.0.as_slice(), expected_input.previous_txid.as_slice()) && f.1 == expected_input.previous_vout
                    && f.2 == expected_input.sequence && f.3.len() == 0 && f.4 == 0;
                proof {
                    if f.3@.len() == 0 {
                        assert(f.3@ =~= Seq::<u8>::empty());
                    }
                }
                ok
            },
            None => false,
        };
        assert(input_ok == htlc_input_matches(*htlc_tx, input as int, *expected_input));
        let output_ok = match read_tx_output(htlc_tx, input) {
            Some(f) => f.0 == expected_output.value_sat && bytes_eq(f.1.as_slice(), expected_output.script_pubkey.as_slice()),
            None => false,
        };
        if !input_ok || !output_ok {
            return Err(SignerError::TransactionMismatch);
        }
        let sighash_type: u32 = if self.channel_parameters.channel_type_features.supports_anchors_zero_fee_htlc_tx() {
            0x83
        } else {
            0x01
        };
        let sighash = match p2wsh_signature_hash(htlc_tx, input, witness_script, htlc_value_sat, sighash_type) {
            Some(h) => h,
            None => {
                return Err(SignerError::InvalidSignature);
            },
        };
        if !verify_ecdsa(&sighash, counterparty_sig, countersignatory_htlc_key) {
            return Err(SignerError::InvalidSignature);
        }
        Ok(())
    }

    /// Admits signing an input that spends output `vout` of a holder
    /// commitment as an anchor: with the dust limit above the anchor value,
    /// anchors can only be its first two outputs.
    pub fn sign_holder_anchor_input(&self, vout: u32) -> (r: Result<(), SignerError>)
        ensures
            r == if vout != 0 && vout != 1 {
                Err(SignerError::NotAnAnchorInput)
            } else if self.state@.disabled.contains(SignerOp::SignHolderAnchorInput) {
                Err(SignerError::OpDisabled)
            } else {
                Ok(())
            },
    {
        if vout != 0 && vout != 1 {
            return Err(SignerError::NotAnAnchorInput);
        }
        self.check_available(SignerOp::SignHolderAnchorInput)
    }

    /// Admits deriving the per-commitment point.
    pub fn get_per_commitment_point(&self) -> (r: Result<(), SignerError>)
        ensures
            r == if self.state@.disabled.contains(SignerOp::GetPerCommitmentPoint) { Err(SignerError::OpDisabled) } else { Ok(()) },
    {
        self.check_available(SignerOp::GetPerCommitmentPoint)
    }

    /// Admits a justice transaction that takes a revoked to-local output.
    pub fn punish_revokeable_output(&self) -> (r: Result<(), SignerError>)
        ensures
            r == if self.state@.disabled.contains(SignerOp::SignJusticeRevokedOutput) { Err(SignerError::OpDisabled) } else { Ok(()) },
    {
        self.check_available(SignerOp::SignJusticeRevokedOutput)
    }

    /// Admits a justice transaction that takes a revoked HTLC output.
    pub fn punish_htlc_output(&self) -> (r: Result<(), SignerError>)
        ensures
            r == if self.state@.disabled.contains(SignerOp::SignJusticeRevokedHtlc) { Err(SignerError::OpDisabled) } else { Ok(()) },
    {
        self.check_available(SignerOp::SignJusticeRevokedHtlc)
    }

    /// Admits sweeping an HTLC the counterparty offered, with its preimage.
    pub fn sweep_counterparty_offered_htlc_output(&self) -> (r: Result<(), SignerError>)
        ensures
            r == if self.state@.disabled.contains(SignerOp::SignCounterpartyHtlcTransaction) { Err(SignerError::OpDisabled) } else { Ok(()) },
    {
        self.check_available(SignerOp::SignCounterpartyHtlcTransaction)
    }

    /// Admits sweeping an HTLC the counterparty received, after its timeout.
    pub fn sweep_counterparty_received_htlc_output(&self) -> (r: Result<(), SignerError>)
        ensures
            r == if self.state@.disabled.contains(SignerOp::SignCounterpartyHtlcTransaction) { Err(SignerError::OpDisabled) } else { Ok(()) },
    {
        self.check_available(SignerOp::SignCounterpartyHtlcTransaction)
    }

    /// Admits signing for a revoked to-local output.
    pub fn sign_justice_revoked_output(&self) -> (r: Result<(), SignerError>)
        ensures
            r == if self.state@.disabled.contains(SignerOp::SignJusticeRevokedOutput) { Err(SignerError::OpDisabled) } else { Ok(()) },
    {
        self.check_available(SignerOp::SignJusticeRevokedOutput)
    }

    /// Admits signing for a revoked HTLC output.
    pub fn sign_justice_revoked_htlc(&self) -> (r: Result<(), SignerError>)
        ensures
            r == if self.state@.disabled.contains(SignerOp::SignJusticeRevokedHtlc) { Err(SignerError::OpDisabled) } else { Ok(()) },
    {
        self.check_available(SignerOp::SignJusticeRevokedHtlc)
    }

    /// Admits signing for an HTLC output of a counterparty commitment.
    pub fn sign_counterparty_htlc_transaction(&self) -> (r: Result<(), SignerError>)
        ensures
            r == if self.state@.disabled.contains(SignerOp::SignCounterpartyHtlcTransaction) { Err(SignerError::OpDisabled) } else { Ok(()) },
    {
        self.check_available(SignerOp::SignCounterpartyHtlcTransaction)
    }

    /// Admits signing the closing transaction.
    pub fn sign_closing_transaction(&self) -> (r: Result<(), SignerError>)
        ensures
            r == if self.state@.disabled.contains(SignerOp::SignClosingTransaction) { Err(SignerError::OpDisabled) } else { Ok(()) },
    {
        self.check_available(SignerOp::SignClosingTransaction)
    }
}

} // verus!
