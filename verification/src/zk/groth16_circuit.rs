//! Groth16 over BN254: the check of a spend proof against a verifying key,
//! with the public commitment and the nullifier as the two public inputs.

use vstd::prelude::*;
use ark_ff::PrimeField;
use ark_serialize::CanonicalDeserialize;
use crate::error::HandCrankedError;
use crate::zk::DefaultVerifier;

verus! {

/// What the Groth16 check says of a proof: `Some(true)` where the pairing
/// equation holds, `Some(false)` where it does not, `None` where the key or
/// the proof does not decode or the key does not take two public inputs.
pub uninterp spec fn groth16_check(
    key: Seq<u8>,
    proof: Seq<u8>,
    public_commitment: Seq<u8>,
    nullifier: Seq<u8>,
) -> Option<bool>;

/// Calls `ark_groth16::Groth16::<Bn254>::verify_proof`, on what
/// `CanonicalDeserialize::deserialize_compressed` makes of the key and the
/// proof, `ark_groth16::prepare_verifying_key` of the decoded key, and
/// `PrimeField::from_le_bytes_mod_order` of the two hashes.
///
/// The contract claims only that the result is a function of the four byte
/// strings. Nothing here is proved of the pairing arithmetic. Key and proof
/// are decoded with validation, so the pairing only ever sees points of the
/// curve.
#[verifier::external_body]
fn check_groth16(key: &[u8], proof: &[u8], public_commitment: &[u8; 32], nullifier: &[u8; 32]) -> (r:
    Option<bool>)
    ensures
        r == groth16_check(key@, proof@, public_commitment@, nullifier@),
{
    let key = ark_groth16::VerifyingKey::<ark_bn254::Bn254>::deserialize_compressed(key).ok()?;
    let key = ark_groth16::prepare_verifying_key(&key);
    let proof = ark_groth16::Proof::<ark_bn254::Bn254>::deserialize_compressed(proof).ok()?;
    let inputs = [
        ark_bn254::Fr::from_le_bytes_mod_order(public_commitment),
        ark_bn254::Fr::from_le_bytes_mod_order(nullifier),
    ];
    ark_groth16::Groth16::<ark_bn254::Bn254>::verify_proof(&key, &proof, &inputs).ok()
}

/// The verdict on a Groth16 check: accepted where the check says that the
/// proof holds, an invalid proof in every other case.
pub open spec fn groth16_verdict(check: Option<bool>) -> Result<(), HandCrankedError> {
    if check == Some(true) {
        Ok(())
    } else {
        Err(HandCrankedError::InvalidProof)
    }
}

/// Turns the outcome of a Groth16 check into a verdict.
pub fn groth16_result(check: Option<bool>) -> (r: Result<(), HandCrankedError>)
    ensures
        r == groth16_verdict(check),
{
    match check {
        Some(true) => Ok(()),
        _ => Err(HandCrankedError::InvalidProof),
    }
}

/// Registers `pvk`, a verifying key in its canonical compressed encoding, as
/// the Groth16 key of `verifier`. The key is prepared for the pairing each
/// time a proof is checked against it.
pub fn set_prepared_vk(verifier: &mut DefaultVerifier, pvk: Vec<u8>)
    ensures
        final(verifier).groth16_key == Some(pvk),
{
    verifier.groth16_key = Some(pvk);
}

/// Checks a Groth16 proof against `key`.
///
/// `Ok` exactly where key and proof decode and the proof holds for the two
/// public inputs; `InvalidProof` otherwise.
pub fn verify_groth16(
    key: &[u8],
    proof_bytes: &[u8],
    public_commitment: &[u8; 32],
    nullifier_bytes: &[u8; 32],
) -> (r: Result<(), HandCrankedError>)
    ensures
        r == groth16_verdict(
            groth16_check(key@, proof_bytes@, public_commitment@, nullifier_bytes@),
        ),
{
    groth16_result(check_groth16(key, proof_bytes, public_commitment, nullifier_bytes))
}

} // verus!
