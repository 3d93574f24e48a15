//! The witnesses that spend outputs of a counterparty commitment: a revoked
//! to-local output, a revoked HTLC output, and an HTLC output claimed with
//! its preimage or after its timeout.

use vstd::prelude::*;

use bitcoin::secp256k1::ecdsa::Signature;
use bitcoin::Witness;

verus! {

/// An ECDSA signature of `secp256k1`, as the signer returns it; carried, never inspected.
#[verifier::external_type_specification]
#[verifier::external_body]
pub struct ExSignature(Signature);

/// A witness stack of `bitcoin`; what it holds is `witness_items`.
#[verifier::external_type_specification]
#[verifier::external_body]
pub struct ExWitness(Witness);

/// The items of a witness stack, in order.
pub uninterp spec fn witness_items(w: Witness) -> Seq<Seq<u8>>;

/// Relies on `bitcoin::Witness::from_slice`: the witness holds the given
/// items, in order.
#[verifier::external_body]
fn witness_from_items(items: &Vec<Vec<u8>>) -> (r: Witness)
    ensures
        witness_items(r) == items@.map_values(|item: Vec<u8>| item@),
{
    Witness::from_slice(items)
}

/// The serialized form of a signature with the sighash flag `ALL`: its DER
/// encoding followed by 0x01.
pub uninterp spec fn sighash_all_bytes(signature: Signature) -> Seq<u8>;

/// Relies on `bitcoin::ecdsa::Signature::sighash_all` and `serialize`: the
/// DER encoding of the signature followed by the sighash flag `ALL` (0x01),
/// 73 bytes at most.
#[verifier::external_body]
fn serialize_sighash_all(signature: &Signature) -> (r: Vec<u8>)
    ensures
        r@ == sighash_all_bytes(*signature),
        1 <= r@.len() <= 73,
        r@.last() == 0x01,
{
    bitcoin::ecdsa::Signature::sighash_all(*signature).serialize().to_vec()
}

/// Whether `item` has the shape of a serialized signature with sighash `ALL`.
pub open spec fn is_sighash_all_signature(item: Seq<u8>) -> bool {
    1 <= item.len() <= 73 && item.last() == 0x01
}

/// The three-item witness `[first, second, third]`.
pub fn three_item_witness(first: Vec<u8>, second: Vec<u8>, third: &Vec<u8>) -> (r: Witness)
    ensures
        witness_items(r) == seq![first@, second@, third@],
{
    let mut items: Vec<Vec<u8>> = Vec::new();
    items.push(first);
    items.push(second);
    items.push(third.clone());
    assert(items@.map_values(|item: Vec<u8>| item@) =~= seq![first@, second@, third@]);
    witness_from_items(&items)
}

fn copy_bytes(bytes: &[u8]) -> (r: Vec<u8>)
    ensures
        r@ == bytes@,
{
    let mut r: Vec<u8> = Vec::new();
    let mut i: usize = 0;
    while i < bytes.len()
        invariant
            i <= bytes@.len(),
            r@ == bytes@.subrange(0, i as int),
        decreases bytes@.len() - i,
    {
        r.push(bytes[i]);
        i = i + 1;
        assert(r@ =~= bytes@.subrange(0, i as int));
    }
    r
}

/// The witness that takes a revoked to-local output with the revocation
/// key: the signature, the selector `1` of the revocation branch, and the
/// revokeable script. `Err` exactly where the signer refused.
pub fn spend_justice_revoked_output(signature: Result<Signature, ()>, witness_script: &Vec<u8>) -> (r: Result<Witness, ()>)
    ensures
        r is Err <==> signature is Err,
        r matches Ok(w) ==> {
            &&& witness_items(w).len() == 3
            &&& is_sighash_all_signature(witness_items(w)[0])
            &&& signature matches Ok(sig) && witness_items(w)[0] == sighash_all_bytes(sig)
            &&& witness_items(w)[1] == seq![1u8]
            &&& witness_items(w)[2] == witness_script@
        },
{
    match signature {
        Ok(sig) => {
            let sig_bytes = serialize_sighash_all(&sig);
            let selector: Vec<u8> = vec![1u8];
            assert(selector@ =~= seq![1u8]);
            Ok(three_item_witness(sig_bytes, selector, witness_script))
        },
        Err(e) => Err(e),
    }
}

/// The witness that takes a revoked HTLC output: the signature, the
/// revocation public key, and the HTLC script. `Err` exactly where the
/// signer refused.
pub fn spend_justice_revoked_htlc(
    signature: Result<Signature, ()>,
    revocation_pubkey: &[u8; 33],
    witness_script: &Vec<u8>,
) -> (r: Result<Witness, ()>)
    ensures
        r is Err <==> signature is Err,
        r matches Ok(w) ==> {
            &&& witness_items(w).len() == 3
            &&& is_sighash_all_signature(witness_items(w)[0])
            &&& signature matches Ok(sig) && witness_items(w)[0] == sighash_all_bytes(sig)
            &&& witness_items(w)[1] == revocation_pubkey@
            &&& witness_items(w)[2] == witness_script@
        },
{
    match signature {
        Ok(sig) => {
            let sig_bytes = serialize_sighash_all(&sig);
            let key = copy_bytes(revocation_pubkey.as_slice());
            Ok(three_item_witness(sig_bytes, key, witness_script))
        },
        Err(e) => Err(e),
    }
}

/// The witness that claims an HTLC output of a counterparty commitment:
/// the signature, the preimage (or an empty item, on the timeout path), and
/// the HTLC script. `Err` exactly where the signer refused.
pub fn spend_counterparty_htlc_output(
    signature: Result<Signature, ()>,
    preimage: Option<[u8; 32]>,
    witness_script: &Vec<u8>,
) -> (r: Result<Witness, ()>)
    ensures
        r is Err <==> signature is Err,
        r matches Ok(w) ==> {
            &&& witness_items(w).len() == 3
            &&& is_sighash_all_signature(witness_items(w)[0])
            &&& signature matches Ok(sig) && witness_items(w)[0] == sighash_all_bytes(sig)
            &&& witness_items(w)[1] == match preimage {
                Some(p) => p@,
                None => Seq::<u8>::empty(),
            }
            &&& witness_items(w)[2] == witness_script@
        },
{
    match signature {
        Ok(sig) => {
            let sig_bytes = serialize_sighash_all(&sig);
            let item: Vec<u8> = match preimage {
                Some(p) => copy_bytes(p.as_slice()),
                None => Vec::new(),
            };
            Ok(three_item_witness(sig_bytes, item, witness_script))
        },
        Err(e) => Err(e),
    }
}

} // verus!
