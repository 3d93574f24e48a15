//! Placing claim witnesses into a sweep transaction, and splitting many HTLC
//! claims into transactions that each stay within the weight limit.

use vstd::prelude::*;

use bitcoin::secp256k1::ecdsa::Signature;
use bitcoin::Witness;

use crate::witness_builder::{
    sighash_all_bytes, spend_counterparty_htlc_output, spend_justice_revoked_htlc, spend_justice_revoked_output,
    witness_items,
};

verus! {

/// The kinds of output that a sweep transaction claims.
#[derive(Clone, Copy, Debug, PartialEq, Eq, Structural)]
pub enum ClaimKind {
    /// A revoked to-local output of a counterparty commitment.
    RevokedOutput,
    /// A revoked HTLC output of a counterparty commitment.
    RevokedHTLCOutput,
    /// An HTLC the counterparty offered, claimed with its preimage.
    CounterpartyOfferedHTLCOutput,
    /// An HTLC the counterparty received, claimed after its timeout.
    CounterpartyReceivedHTLCOutput,
}

/// Whether a failed signature for this claim must stop the whole sweep.
pub open spec fn signing_failure_is_fatal(kind: ClaimKind) -> bool {
    kind is RevokedOutput || kind is RevokedHTLCOutput
}

/// Sets the witness of one input of a sweep from the witness built for its
/// claim. A revoked output whose witness could not be built fails the sweep
/// (`false`); an HTLC claim whose witness could not be built leaves its
/// input unchanged, so that the other inputs can still be swept.
pub fn finalize_input(kind: ClaimKind, witness: Result<Witness, ()>, input_witness: &mut Witness) -> (r: bool)
    ensures
        r == !(witness is Err && signing_failure_is_fatal(kind)),
        witness matches Ok(w) ==> *final(input_witness) == w,
        witness is Err ==> *final(input_witness) == *old(input_witness),
{
    match witness {
        Ok(w) => {
            *input_witness = w;
            true
        },
        Err(_) => {
            match kind {
                ClaimKind::RevokedOutput | ClaimKind::RevokedHTLCOutput => false,
                ClaimKind::CounterpartyOfferedHTLCOutput | ClaimKind::CounterpartyReceivedHTLCOutput => true,
            }
        },
    }
}

/// A claim with what its spend path needs besides the signature and script.
#[derive(Clone, Copy, Debug)]
pub enum ClaimSolvingData {
    RevokedOutput,
    RevokedHTLCOutput { revocation_pubkey: [u8; 33] },
    CounterpartyOfferedHTLCOutput { preimage: [u8; 32] },
    CounterpartyReceivedHTLCOutput,
}

pub open spec fn claim_kind_of(claim: ClaimSolvingData) -> ClaimKind {
    match claim {
        ClaimSolvingData::RevokedOutput => ClaimKind::RevokedOutput,
        ClaimSolvingData::RevokedHTLCOutput { .. } => ClaimKind::RevokedHTLCOutput,
        ClaimSolvingData::CounterpartyOfferedHTLCOutput { .. } => ClaimKind::CounterpartyOfferedHTLCOutput,
        ClaimSolvingData::CounterpartyReceivedHTLCOutput => ClaimKind::CounterpartyReceivedHTLCOutput,
    }
}

/// The middle witness item of each spend path: the revocation selector `1`,
/// the revocation key, the preimage, or nothing on the timeout path.
pub open spec fn claim_second_item(claim: ClaimSolvingData) -> Seq<u8> {
    match claim {
        ClaimSolvingData::RevokedOutput => seq![1u8],
        ClaimSolvingData::RevokedHTLCOutput { revocation_pubkey } => revocation_pubkey@,
        ClaimSolvingData::CounterpartyOfferedHTLCOutput { preimage } => preimage@,
        ClaimSolvingData::CounterpartyReceivedHTLCOutput => Seq::empty(),
    }
}

/// Builds the witness of a claim along its spend path: the preimage for an
/// HTLC the counterparty offered, none for one it received. `Err` exactly
/// where the signer refused.
pub fn claim_witness(claim: &ClaimSolvingData, signature: Result<Signature, ()>, witness_script: &Vec<u8>) -> (r: Result<Witness, ()>)
    ensures
        r is Err <==> signature is Err,
        r matches Ok(w) ==> signature matches Ok(sig)
            && witness_items(w) == seq![sighash_all_bytes(sig), claim_second_item(*claim), witness_script@],
{
    let r = match claim {
        ClaimSolvingData::RevokedOutput => spend_justice_revoked_output(signature, witness_script),
        ClaimSolvingData::RevokedHTLCOutput { revocation_pubkey } => spend_justice_revoked_htlc(signature, revocation_pubkey, witness_script),
        ClaimSolvingData::CounterpartyOfferedHTLCOutput { preimage } => spend_counterparty_htlc_output(signature, Some(*preimage), witness_script),
        ClaimSolvingData::CounterpartyReceivedHTLCOutput => spend_counterparty_htlc_output(signature, None, witness_script),
    };
    assert(r matches Ok(w) ==> signature matches Ok(sig)
        && witness_items(w) =~= seq![sighash_all_bytes(sig), claim_second_item(*claim), witness_script@]);
    r
}

/// Signs one input of a sweep along its claim's spend path and sets its
/// witness; `false` where a revoked output could not be signed.
pub fn finalize_claim_input(
    claim: &ClaimSolvingData,
    signature: Result<Signature, ()>,
    witness_script: &Vec<u8>,
    input_witness: &mut Witness,
) -> (r: bool)
    ensures
        r == !(signature is Err && signing_failure_is_fatal(claim_kind_of(*claim))),
        signature matches Ok(sig) ==> witness_items(*final(input_witness))
            == seq![sighash_all_bytes(sig), claim_second_item(*claim), witness_script@],
        signature is Err ==> *final(input_witness) == *old(input_witness),
{
    let kind = match claim {
        ClaimSolvingData::RevokedOutput => ClaimKind::RevokedOutput,
        ClaimSolvingData::RevokedHTLCOutput { .. } => ClaimKind::RevokedHTLCOutput,
        ClaimSolvingData::CounterpartyOfferedHTLCOutput { .. } => ClaimKind::CounterpartyOfferedHTLCOutput,
        ClaimSolvingData::CounterpartyReceivedHTLCOutput => ClaimKind::CounterpartyReceivedHTLCOutput,
    };
    let witness = claim_witness(claim, signature, witness_script);
    finalize_input(kind, witness, input_witness)
}

/// The largest weight of a transaction that must stay within the
/// 10,000 virtual bytes that a version 3 (TRUC) transaction may have.
pub const TRUC_MAX_WEIGHT: u64 = 40_000;
/// The weight that one HTLC claim adds to an aggregated claim transaction:
/// its input (164) with the success-path witness (324), and its P2WSH
/// output (172).
pub const HTLC_CLAIM_WEIGHT: u64 = 660;
/// The weight of what a claim transaction holds besides its claims: its
/// fixed fields (42), and the wallet input (272) and change output (124)
/// that pay its fee.
pub const CLAIM_TX_RESERVED_WEIGHT: u64 = 438;

/// The most claims that fit in one transaction.
pub open spec fn claims_per_tx(claim_weight: int, reserved_weight: int, max_weight: int) -> int {
    (max_weight - reserved_weight) / claim_weight
}

/// Full batches of `per_tx` claims, then one batch with the rest.
pub open spec fn claim_batches_spec(claim_count: int, per_tx: int) -> Seq<int>
    decreases claim_count,
{
    if claim_count <= 0 || per_tx <= 0 {
        seq![]
    } else if claim_count <= per_tx {
        seq![claim_count]
    } else {
        seq![per_tx] + claim_batches_spec(claim_count - per_tx, per_tx)
    }
}

/// Splits `claim_count` HTLC claims into transactions, each filled with as
/// many claims as fit within `max_weight` next to `reserved_weight`, in order.
pub fn htlc_claim_batches(claim_count: usize, claim_weight: u64, reserved_weight: u64, max_weight: u64) -> (r: Vec<usize>)
    requires
        claim_weight > 0,
        reserved_weight + claim_weight <= max_weight,
    ensures
        r@.map_values(|b: usize| b as int) == claim_batches_spec(claim_count as int,
            claims_per_tx(claim_weight as int, reserved_weight as int, max_weight as int)),
{
    let per_tx: u64 = (max_weight - reserved_weight) / claim_weight;
    let ghost per = per_tx as int;
    assert(per >= 1) by (nonlinear_arith)
        requires per == (max_weight - reserved_weight) / claim_weight as int, max_weight - reserved_weight >= claim_weight, claim_weight > 0;
    let mut batches: Vec<usize> = Vec::new();
    let mut remaining: usize = claim_count;
    while remaining > 0
        invariant
            per >= 1,
            per == per_tx,
            per == claims_per_tx(claim_weight as int, reserved_weight as int, max_weight as int),
            remaining <= claim_count,
            batches@.map_values(|b: usize| b as int) + claim_batches_spec(remaining as int, per)
                == claim_batches_spec(claim_count as int, per),
        decreases remaining,
    {
        let ghost before = batches@;
        let batch: usize = if (remaining as u64) <= per_tx { remaining } else { per_tx as usize };
        batches.push(batch);
        proof {
            assert(batches@.map_values(|b: usize| b as int) =~= before.map_values(|b: usize| b as int).push(batch as int));
            if remaining as int <= per {
                assert(claim_batches_spec(remaining as int, per) == seq![remaining as int]);
                assert(claim_batches_spec(0, per) =~= Seq::<int>::empty());
                assert(before.map_values(|b: usize| b as int).push(batch as int) + claim_batches_spec(0, per)
                    =~= before.map_values(|b: usize| b as int) + claim_batches_spec(remaining as int, per));
            } else {
                assert(before.map_values(|b: usize| b as int).push(batch as int) + claim_batches_spec(remaining - per, per)
                    =~= before.map_values(|b: usize| b as int) + claim_batches_spec(remaining as int, per));
            }
        }
        remaining = remaining - batch;
    }
    assert(claim_batches_spec(0, per) =~= Seq::<int>::empty());
    assert(batches@.map_values(|b: usize| b as int) + Seq::<int>::empty() =~= batches@.map_values(|b: usize| b as int));
    batches
}

pub open spec fn batch_total(batches: Seq<int>) -> int
    decreases batches.len(),
{
    if batches.len() == 0 {
        0
    } else {
        batches[0] + batch_total(batches.drop_first())
    }
}

/// Batching loses and repeats no claim, and every batch is a non-empty
/// transaction within the weight limit: all but the last are full.
pub proof fn lemma_claim_batches_fit(claim_count: int, claim_weight: int, reserved_weight: int, max_weight: int)
    requires
        claim_count >= 0,
        claim_weight > 0,
        reserved_weight + claim_weight <= max_weight,
    ensures
        ({
            let per = claims_per_tx(claim_weight, reserved_weight, max_weight);
            let batches = claim_batches_spec(claim_count, per);
            &&& batch_total(batches) == claim_count
            &&& forall|i: int| 0 <= i < batches.len() ==> 1 <= #[trigger] batches[i] <= per
            &&& forall|i: int| 0 <= i < batches.len() ==> reserved_weight + #[trigger] batches[i] * claim_weight <= max_weight
            &&& forall|i: int| 0 <= i < batches.len() - 1 ==> #[trigger] batches[i] == per
        }),
{
    let per = claims_per_tx(claim_weight, reserved_weight, max_weight);
    assert(per >= 1 && per * claim_weight <= max_weight - reserved_weight) by (nonlinear_arith)
        requires
            per == (max_weight - reserved_weight) / claim_weight,
            max_weight - reserved_weight >= claim_weight,
            claim_weight > 0;
    lemma_batches_within(claim_count, per);
    let batches = claim_batches_spec(claim_count, per);
    assert forall|i: int| 0 <= i < batches.len() implies reserved_weight + #[trigger] batches[i] * claim_weight <= max_weight by {
        let b = batches[i];
        assert(b * claim_weight <= per * claim_weight) by (nonlinear_arith)
            requires b <= per, claim_weight > 0;
    }
}

proof fn lemma_batches_within(claim_count: int, per: int)
    requires
        claim_count >= 0,
        per >= 1,
    ensures
        batch_total(claim_batches_spec(claim_count, per)) == claim_count,
        forall|i: int| 0 <= i < claim_batches_spec(claim_count, per).len() ==> 1 <= #[trigger] claim_batches_spec(claim_count, per)[i] <= per,
        forall|i: int| 0 <= i < claim_batches_spec(claim_count, per).len() - 1 ==> #[trigger] claim_batches_spec(claim_count, per)[i] == per,
    decreases claim_count,
{
    let batches = claim_batches_spec(claim_count, per);
    if claim_count == 0 {
    } else if claim_count <= per {
        assert(batches.drop_first() =~= Seq::<int>::empty());
        assert(batch_total(batches.drop_first()) == 0);
        assert(batch_total(batches) == batches[0] + batch_total(batches.drop_first()));
    } else {
        let rest = claim_batches_spec(claim_count - per, per);
        lemma_batches_within(claim_count - per, per);
        assert(batches.drop_first() =~= rest);
        assert(batch_total(batches) == batches[0] + batch_total(batches.drop_first()));
        assert forall|i: int| 0 < i < batches.len() implies batches[i] == rest[i - 1] by {}
    }
}

} // verus!
