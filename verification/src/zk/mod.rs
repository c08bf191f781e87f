//! The proof gate: one interface over the proof systems, and the verifier
//! that the ledger ships with.

use vstd::prelude::*;
use crate::error::HandCrankedError;
use crate::instruction::ProofSystem;

pub mod groth16_circuit;
pub mod stark;

verus! {

/// A verifier of spend proofs.
///
/// A verifier is a pure predicate: what it answers is a function of its own
/// configuration and of the proof system, the proof, the public commitment
/// and the nullifier, and of nothing else.
pub trait ProofVerifier {
    /// The answer of this verifier: `Ok` to accept, otherwise the reason.
    spec fn verdict(
        &self,
        system: ProofSystem,
        proof: Seq<u8>,
        public_commitment: Seq<u8>,
        nullifier: Seq<u8>,
    ) -> Result<(), HandCrankedError>;

    /// Checks `proof` for the pair of public commitment and nullifier.
    fn verify(
        &self,
        system: ProofSystem,
        proof: &[u8],
        public_commitment: &[u8; 32],
        nullifier: &[u8; 32],
    ) -> (r: Result<(), HandCrankedError>)
        ensures
            r == self.verdict(system, proof@, public_commitment@, nullifier@),
    ;
}

/// The verifier that the ledger ships with. It knows Groth16 over BN254 once
/// a verifying key is registered, and no other proof system.
#[derive(Clone, Debug, PartialEq, Eq)]
pub struct DefaultVerifier {
    /// The Groth16 verifying key in its canonical compressed encoding;
    /// `None` while no key is registered.
    pub groth16_key: Option<Vec<u8>>,
}

impl DefaultVerifier {
    /// A verifier without any registered key: it supports no proof system.
    pub fn new() -> (v: DefaultVerifier)
        ensures
            v.groth16_key is None,
    {
        DefaultVerifier { groth16_key: None }
    }
}

impl ProofVerifier for DefaultVerifier {
    /// Groth16 goes to the Groth16 check where a key is registered; every
    /// other case has no verifier.
    open spec fn verdict(
        &self,
        system: ProofSystem,
        proof: Seq<u8>,
        public_commitment: Seq<u8>,
        nullifier: Seq<u8>,
    ) -> Result<(), HandCrankedError> {
        match (system, self.groth16_key) {
            (ProofSystem::Groth16, Some(key)) => groth16_circuit::groth16_verdict(
                groth16_circuit::groth16_check(key@, proof, public_commitment, nullifier),
            ),
            (ProofSystem::Groth16, None) => Err(HandCrankedError::UnsupportedProofSystem),
            (ProofSystem::Stark, _) => stark::stark_verdict(),
        }
    }

    fn verify(
        &self,
        system: ProofSystem,
        proof: &[u8],
        public_commitment: &[u8; 32],
        nullifier: &[u8; 32],
    ) -> (r: Result<(), HandCrankedError>) {
        match system {
            ProofSystem::Groth16 => match &self.groth16_key {
                Some(key) => groth16_circuit::verify_groth16(
                    key.as_slice(),
                    proof,
                    public_commitment,
                    nullifier,
                ),
                None => Err(HandCrankedError::UnsupportedProofSystem),
            },
            ProofSystem::Stark => stark::verify_stark(proof, public_commitment, nullifier),
        }
    }
}

} // verus!
