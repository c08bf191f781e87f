use ark_bn254::{Bn254, Fr};
use ark_ff::PrimeField;
use ark_groth16::Groth16;
use ark_r1cs_std::alloc::AllocVar;
use ark_r1cs_std::eq::EqGadget;
use ark_r1cs_std::fields::fp::FpVar;
use ark_relations::r1cs::{ConstraintSynthesizer, ConstraintSystemRef, SynthesisError};
use ark_serialize::CanonicalSerialize;
use hand_cranked_privacy::account::{Account, RecordWrite};
use hand_cranked_privacy::address::{find_global_address, find_note_address};
use hand_cranked_privacy::error::HandCrankedError;
use hand_cranked_privacy::instruction::{HandCrankedInstruction, ProofSystem};
use hand_cranked_privacy::processor::Processor;
use hand_cranked_privacy::state::{GlobalState, NoteState};
use hand_cranked_privacy::zk::groth16_circuit::{groth16_result, set_prepared_vk, verify_groth16};
use hand_cranked_privacy::zk::stark::verify_stark;
use hand_cranked_privacy::zk::{DefaultVerifier, ProofVerifier};

const PROGRAM: [u8; 32] = [7u8; 32];
const SECRET: [u8; 32] = [0x5e; 32];
const OTHER: [u8; 32] = [0x11; 32];

/// The statement of the transfer circuit: the two public inputs are equal.
struct EqualInputs {
    commitment: Option<Fr>,
    nullifier: Option<Fr>,
}

impl ConstraintSynthesizer<Fr> for EqualInputs {
    fn generate_constraints(self, cs: ConstraintSystemRef<Fr>) -> Result<(), SynthesisError> {
        let commitment = FpVar::<Fr>::new_input(cs.clone(), || {
            self.commitment.ok_or(SynthesisError::AssignmentMissing)
        })?;
        let nullifier = FpVar::<Fr>::new_input(cs.clone(), || {
            self.nullifier.ok_or(SynthesisError::AssignmentMissing)
        })?;
        commitment.enforce_equal(&nullifier)?;
        Ok(())
    }
}

/// A verifying key and a proof that both public inputs are `hash`.
fn key_and_proof(hash: &[u8; 32]) -> (Vec<u8>, Vec<u8>) {
    let mut rng = ark_std::test_rng();
    let blank = EqualInputs { commitment: None, nullifier: None };
    let pk = Groth16::<Bn254>::generate_random_parameters_with_reduction(blank, &mut rng).unwrap();
    let x = Fr::from_le_bytes_mod_order(hash);
    let filled = EqualInputs { commitment: Some(x), nullifier: Some(x) };
    let proof = Groth16::<Bn254>::create_random_proof_with_reduction(filled, &pk, &mut rng).unwrap();
    let mut key_bytes = Vec::new();
    pk.vk.serialize_compressed(&mut key_bytes).unwrap();
    let mut proof_bytes = Vec::new();
    proof.serialize_compressed(&mut proof_bytes).unwrap();
    (key_bytes, proof_bytes)
}

fn stored(key: [u8; 32], data: Vec<u8>) -> Account {
    Account { key, owner: PROGRAM, lamports: 1_000_000, is_signer: false, data }
}

fn absent(key: [u8; 32]) -> Account {
    Account { key, owner: [0; 32], lamports: 0, is_signer: false, data: vec![] }
}

fn transfer_accounts() -> Vec<Account> {
    let note = NoteState { is_initialized: true, commitment: [1; 32], nullifier: [0; 32], spent: false };
    vec![
        stored(
            find_global_address(&PROGRAM).unwrap().address,
            GlobalState { is_initialized: true, version: 1, authority: [0xa1; 32] }.pack(),
        ),
        stored(find_note_address(&PROGRAM, &[1; 32]).unwrap().address, note.pack()),
        absent(find_note_address(&PROGRAM, &[2; 32]).unwrap().address),
        absent(find_note_address(&PROGRAM, &[0; 32]).unwrap().address),
        Account { key: [0xc1; 32], owner: [0; 32], lamports: 9, is_signer: true, data: vec![] },
        Account { key: [0; 32], owner: [0xfe; 32], lamports: 1, is_signer: false, data: vec![] },
    ]
}

fn transfer_request(proof: Vec<u8>, nullifier: [u8; 32]) -> Vec<u8> {
    HandCrankedInstruction::PrivateTransfer {
        proof_system: ProofSystem::Groth16,
        proof,
        public_inputs_commitment: SECRET,
        nullifier,
        new_commitment_1: [2; 32],
        new_commitment_2: [0; 32],
    }
    .pack()
    .unwrap()
}

#[test]
fn groth16_accepts_a_proof_and_rejects_it_for_other_inputs() {
    let (key, proof) = key_and_proof(&SECRET);
    assert_eq!(verify_groth16(&key, &proof, &SECRET, &SECRET), Ok(()));
    assert_eq!(verify_groth16(&key, &proof, &SECRET, &OTHER), Err(HandCrankedError::InvalidProof));
    assert_eq!(verify_groth16(&key, &proof, &OTHER, &OTHER), Err(HandCrankedError::InvalidProof));
}

#[test]
fn groth16_rejects_what_does_not_decode() {
    let (key, proof) = key_and_proof(&SECRET);
    assert_eq!(verify_groth16(&key, &[], &SECRET, &SECRET), Err(HandCrankedError::InvalidProof));
    assert_eq!(
        verify_groth16(&key, &[0xff; 128], &SECRET, &SECRET),
        Err(HandCrankedError::InvalidProof)
    );
    assert_eq!(verify_groth16(&[], &proof, &SECRET, &SECRET), Err(HandCrankedError::InvalidProof));
    assert_eq!(
        verify_groth16(&proof, &proof, &SECRET, &SECRET),
        Err(HandCrankedError::InvalidProof)
    );
    let mut tampered = proof.clone();
    tampered[3] ^= 0x40;
    assert_eq!(
        verify_groth16(&key, &tampered, &SECRET, &SECRET),
        Err(HandCrankedError::InvalidProof)
    );
}

#[test]
fn groth16_check_outcomes_become_verdicts() {
    assert_eq!(groth16_result(Some(true)), Ok(()));
    assert_eq!(groth16_result(Some(false)), Err(HandCrankedError::InvalidProof));
    assert_eq!(groth16_result(None), Err(HandCrankedError::InvalidProof));
}

#[test]
fn stark_has_no_verifier() {
    assert_eq!(
        verify_stark(&[1, 2, 3], &SECRET, &SECRET),
        Err(HandCrankedError::UnsupportedProofSystem)
    );
    assert_eq!(verify_stark(&[], &[0; 32], &[0; 32]), Err(HandCrankedError::UnsupportedProofSystem));
}

#[test]
fn default_verifier_tells_unsupported_from_rejected() {
    let (key, proof) = key_and_proof(&SECRET);
    let mut verifier = DefaultVerifier::new();
    assert_eq!(verifier.groth16_key, None);
    assert_eq!(
        verifier.verify(ProofSystem::Groth16, &proof, &SECRET, &SECRET),
        Err(HandCrankedError::UnsupportedProofSystem)
    );
    set_prepared_vk(&mut verifier, key.clone());
    assert_eq!(verifier.groth16_key, Some(key));
    assert_eq!(verifier.verify(ProofSystem::Groth16, &proof, &SECRET, &SECRET), Ok(()));
    assert_eq!(
        verifier.verify(ProofSystem::Groth16, &proof, &SECRET, &OTHER),
        Err(HandCrankedError::InvalidProof)
    );
    assert_eq!(
        verifier.verify(ProofSystem::Stark, &proof, &SECRET, &SECRET),
        Err(HandCrankedError::UnsupportedProofSystem)
    );
}

#[test]
fn verifier_gives_the_same_answer_again() {
    let (key, proof) = key_and_proof(&SECRET);
    let verifier = DefaultVerifier { groth16_key: Some(key) };
    let first = verifier.verify(ProofSystem::Groth16, &proof, &SECRET, &SECRET);
    let refused = verifier.verify(ProofSystem::Groth16, &proof, &OTHER, &SECRET);
    let second = verifier.verify(ProofSystem::Groth16, &proof, &SECRET, &SECRET);
    assert_eq!(first, Ok(()));
    assert_eq!(refused, Err(HandCrankedError::InvalidProof));
    assert_eq!(second, first);
}

#[test]
fn test_private_transfer() {
    let (key, proof) = key_and_proof(&SECRET);
    let verifier = DefaultVerifier { groth16_key: Some(key) };
    let mut accounts = transfer_accounts();
    let before = accounts.clone();
    let data = transfer_request(proof, SECRET);
    let writes = Processor::process(&PROGRAM, &mut accounts, &data, &verifier).unwrap();
    assert_eq!(writes.len(), 2);
    assert_eq!(writes[0], RecordWrite { index: 1, create: None });
    assert_eq!(writes[1].index, 2);
    assert_eq!(writes[1].create.as_ref().unwrap().payer, 4);
    assert_eq!(
        NoteState::unpack(&accounts[1].data),
        Some(NoteState { is_initialized: true, commitment: [1; 32], nullifier: SECRET, spent: true })
    );
    assert_eq!(
        NoteState::unpack(&accounts[2].data),
        Some(NoteState { is_initialized: true, commitment: [2; 32], nullifier: [0; 32], spent: false })
    );
    assert_eq!(accounts[3], before[3]);
}

#[test]
fn private_transfer_with_a_proof_for_another_nullifier_changes_nothing() {
    let (key, proof) = key_and_proof(&SECRET);
    let verifier = DefaultVerifier { groth16_key: Some(key) };
    let mut accounts = transfer_accounts();
    let before = accounts.clone();
    let data = transfer_request(proof, OTHER);
    assert_eq!(
        Processor::process(&PROGRAM, &mut accounts, &data, &verifier),
        Err(HandCrankedError::InvalidProof)
    );
    assert_eq!(accounts, before);
    assert!(!NoteState::unpack(&accounts[1].data).unwrap().spent);
    assert!(accounts[2].data.is_empty());
}

#[test]
fn private_transfer_without_a_registered_key_is_unsupported() {
    let (_, proof) = key_and_proof(&SECRET);
    let mut accounts = transfer_accounts();
    let before = accounts.clone();
    assert_eq!(
        Processor::process_private_transfer(
            &PROGRAM,
            &mut accounts,
            &DefaultVerifier::new(),
            ProofSystem::Groth16,
            &proof,
            &SECRET,
            &SECRET,
            &[2; 32],
            &[0; 32]
        ),
        Err(HandCrankedError::UnsupportedProofSystem)
    );
    assert_eq!(accounts, before);
}
