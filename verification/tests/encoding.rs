use borsh::{BorshDeserialize, BorshSerialize};
use hand_cranked_privacy::error::{HandCrankedError, StoreError};
use hand_cranked_privacy::instruction::{HandCrankedInstruction, ProofSystem};
use hand_cranked_privacy::state::{GlobalState, NoteState, GLOBAL_STATE_LEN, NOTE_STATE_LEN};
use hand_cranked_privacy::utils::assert_rent_exempt;

type NoteTuple = (bool, [u8; 32], [u8; 32], bool);
type GlobalTuple = (bool, u8, [u8; 32]);
type TransferTuple = (u8, u8, Vec<u8>, [u8; 32], [u8; 32], [u8; 32], [u8; 32]);

fn transfer(proof_system: ProofSystem, proof: Vec<u8>) -> HandCrankedInstruction {
    HandCrankedInstruction::PrivateTransfer {
        proof_system,
        proof,
        public_inputs_commitment: [4u8; 32],
        nullifier: [5u8; 32],
        new_commitment_1: [6u8; 32],
        new_commitment_2: [0u8; 32],
    }
}

#[test]
fn initialize_is_one_zero_byte() {
    assert_eq!(HandCrankedInstruction::Initialize.pack(), Ok(vec![0u8]));
    assert_eq!(HandCrankedInstruction::unpack(&[0u8]), Ok(HandCrankedInstruction::Initialize));
    assert_eq!(0u8.try_to_vec().unwrap(), vec![0u8]);
}

#[test]
fn deposit_is_tag_and_commitment() {
    let mut expected = vec![1u8];
    expected.extend_from_slice(&[1u8; 32]);
    let packed = HandCrankedInstruction::Deposit { commitment: [1u8; 32] }.pack().unwrap();
    assert_eq!(packed, expected);
    assert_eq!(packed, (1u8, [1u8; 32]).try_to_vec().unwrap());
    assert_eq!(
        HandCrankedInstruction::unpack(&packed),
        Ok(HandCrankedInstruction::Deposit { commitment: [1u8; 32] })
    );
}

#[test]
fn withdraw_is_tag_and_nullifier() {
    let packed = HandCrankedInstruction::Withdraw { nullifier: [9u8; 32] }.pack().unwrap();
    assert_eq!(packed.len(), 33);
    assert_eq!(packed, (3u8, [9u8; 32]).try_to_vec().unwrap());
    assert_eq!(
        HandCrankedInstruction::unpack(&packed),
        Ok(HandCrankedInstruction::Withdraw { nullifier: [9u8; 32] })
    );
}

#[test]
fn private_transfer_layout_is_exact() {
    let packed = transfer(ProofSystem::Stark, vec![0xaa, 0xbb, 0xcc]).pack().unwrap();
    let mut expected = vec![2u8, 1u8, 3, 0, 0, 0, 0xaa, 0xbb, 0xcc];
    expected.extend_from_slice(&[4u8; 32]);
    expected.extend_from_slice(&[5u8; 32]);
    expected.extend_from_slice(&[6u8; 32]);
    expected.extend_from_slice(&[0u8; 32]);
    assert_eq!(packed, expected);
    assert_eq!(packed.len(), 134 + 3);
}

#[test]
fn private_transfer_agrees_with_borsh() {
    let proof: Vec<u8> = (0..300u32).map(|i| (i % 251) as u8).collect();
    let packed = transfer(ProofSystem::Groth16, proof.clone()).pack().unwrap();
    let by_borsh: TransferTuple = (2, 0, proof.clone(), [4; 32], [5; 32], [6; 32], [0; 32]);
    assert_eq!(packed, by_borsh.try_to_vec().unwrap());
    assert_eq!(&packed[2..6], &[44u8, 1, 0, 0]);
    assert_eq!(TransferTuple::try_from_slice(&packed).unwrap(), by_borsh);
    assert_eq!(
        HandCrankedInstruction::unpack(&packed),
        Ok(transfer(ProofSystem::Groth16, proof))
    );
}

#[test]
fn private_transfer_with_empty_proof_round_trips() {
    let packed = transfer(ProofSystem::Groth16, vec![]).pack().unwrap();
    assert_eq!(packed.len(), 134);
    assert_eq!(HandCrankedInstruction::unpack(&packed), Ok(transfer(ProofSystem::Groth16, vec![])));
}

#[test]
fn length_prefix_uses_all_four_bytes() {
    let proof = vec![7u8; 70_000];
    let packed = transfer(ProofSystem::Stark, proof.clone()).pack().unwrap();
    assert_eq!(&packed[2..6], &[0x70u8, 0x11, 0x01, 0x00]);
    assert_eq!(HandCrankedInstruction::unpack(&packed), Ok(transfer(ProofSystem::Stark, proof)));
}

#[test]
fn unpack_rejects_what_encodes_nothing() {
    let bad = Err(HandCrankedError::InvalidInstruction);
    assert_eq!(HandCrankedInstruction::unpack(&[]), bad);
    assert_eq!(HandCrankedInstruction::unpack(&[4u8]), bad);
    assert_eq!(HandCrankedInstruction::unpack(&[255u8]), bad);
    assert_eq!(HandCrankedInstruction::unpack(&[0u8, 0u8]), bad);
    assert_eq!(HandCrankedInstruction::unpack(&[1u8; 32]), bad);
    assert_eq!(HandCrankedInstruction::unpack(&[1u8; 34]), bad);
    assert_eq!(HandCrankedInstruction::unpack(&[3u8; 32]), bad);
    assert_eq!(HandCrankedInstruction::unpack(&[3u8; 34]), bad);
    assert_eq!(HandCrankedInstruction::unpack(&[2u8]), bad);
}

#[test]
fn unpack_rejects_malformed_transfers() {
    let bad = Err(HandCrankedError::InvalidInstruction);
    let good = transfer(ProofSystem::Groth16, vec![1, 2, 3]).pack().unwrap();

    let mut unknown_system = good.clone();
    unknown_system[1] = 2;
    assert_eq!(HandCrankedInstruction::unpack(&unknown_system), bad);
    assert!(TransferTuple::try_from_slice(&unknown_system).is_ok());

    let mut trailing = good.clone();
    trailing.push(0);
    assert_eq!(HandCrankedInstruction::unpack(&trailing), bad);
    assert!(TransferTuple::try_from_slice(&trailing).is_err());

    let truncated = &good[..good.len() - 1];
    assert_eq!(HandCrankedInstruction::unpack(truncated), bad);
    assert!(TransferTuple::try_from_slice(truncated).is_err());

    let mut long_prefix = good.clone();
    long_prefix[2] = 4;
    assert_eq!(HandCrankedInstruction::unpack(&long_prefix), bad);

    let mut huge_prefix = good.clone();
    huge_prefix[5] = 0xff;
    assert_eq!(HandCrankedInstruction::unpack(&huge_prefix), bad);
    assert!(TransferTuple::try_from_slice(&huge_prefix).is_err());
}

#[test]
fn proof_system_bytes() {
    assert_eq!(ProofSystem::Groth16.to_byte(), 0);
    assert_eq!(ProofSystem::Stark.to_byte(), 1);
    assert_eq!(ProofSystem::from_byte(0), Some(ProofSystem::Groth16));
    assert_eq!(ProofSystem::from_byte(1), Some(ProofSystem::Stark));
    assert_eq!(ProofSystem::from_byte(2), None);
}

#[test]
fn note_state_layout_agrees_with_borsh() {
    let note = NoteState {
        is_initialized: true,
        commitment: [1u8; 32],
        nullifier: [2u8; 32],
        spent: true,
    };
    let packed = note.pack();
    assert_eq!(packed.len(), NOTE_STATE_LEN);
    assert_eq!(NOTE_STATE_LEN, 66);
    let by_borsh: NoteTuple = (true, [1; 32], [2; 32], true);
    assert_eq!(packed, by_borsh.try_to_vec().unwrap());
    assert_eq!(NoteState::unpack(&packed), Some(note));
    assert_eq!(NoteTuple::try_from_slice(&packed).unwrap(), by_borsh);
}

#[test]
fn note_state_unpack_rejects_what_borsh_rejects() {
    let good = NoteState::default().pack();
    assert_eq!(good, vec![0u8; 66]);
    assert_eq!(NoteState::unpack(&good), Some(NoteState::default()));

    let mut bad_flag = good.clone();
    bad_flag[0] = 2;
    assert_eq!(NoteState::unpack(&bad_flag), None);
    assert!(NoteTuple::try_from_slice(&bad_flag).is_err());

    let mut bad_spent = good.clone();
    bad_spent[65] = 7;
    assert_eq!(NoteState::unpack(&bad_spent), None);
    assert!(NoteTuple::try_from_slice(&bad_spent).is_err());

    assert_eq!(NoteState::unpack(&good[..65]), None);
    assert!(NoteTuple::try_from_slice(&good[..65]).is_err());
    assert_eq!(NoteState::unpack(&[0u8; 67]), None);
    assert!(NoteTuple::try_from_slice(&[0u8; 67]).is_err());
    assert_eq!(NoteState::unpack(&[]), None);
}

#[test]
fn global_state_layout_agrees_with_borsh() {
    let config = GlobalState { is_initialized: true, version: 1, authority: [8u8; 32] };
    let packed = config.pack();
    assert_eq!(packed.len(), GLOBAL_STATE_LEN);
    assert_eq!(GLOBAL_STATE_LEN, 34);
    let by_borsh: GlobalTuple = (true, 1, [8; 32]);
    assert_eq!(packed, by_borsh.try_to_vec().unwrap());
    assert_eq!(GlobalState::unpack(&packed), Some(config));

    let mut bad_flag = packed.clone();
    bad_flag[0] = 3;
    assert_eq!(GlobalState::unpack(&bad_flag), None);
    assert!(GlobalTuple::try_from_slice(&bad_flag).is_err());
    assert_eq!(GlobalState::unpack(&packed[..33]), None);
    assert_eq!(GlobalState::unpack(&[0u8; 35]), None);
}

#[test]
fn defaults_are_blank() {
    let config = GlobalState::default();
    assert!(!config.is_initialized);
    assert_eq!(config.version, GlobalState::VERSION);
    assert_eq!(GlobalState::VERSION, 1);
    assert_eq!(config.authority, [0u8; 32]);
    let note = NoteState::default();
    assert_eq!(
        note,
        NoteState { is_initialized: false, commitment: [0; 32], nullifier: [0; 32], spent: false }
    );
}

#[test]
fn error_codes_are_stable() {
    assert_eq!(HandCrankedError::InvalidInstruction.code(), 0);
    assert_eq!(HandCrankedError::InvalidAccountData.code(), 1);
    assert_eq!(HandCrankedError::NotRentExempt.code(), 2);
    assert_eq!(HandCrankedError::AlreadyInitialized.code(), 3);
    assert_eq!(HandCrankedError::Unauthorized.code(), 4);
    assert_eq!(HandCrankedError::DuplicateCommitment.code(), 5);
    assert_eq!(HandCrankedError::NullifierAlreadySpent.code(), 6);
    assert_eq!(HandCrankedError::InvalidProof.code(), 7);
    assert_eq!(HandCrankedError::UnsupportedProofSystem.code(), 8);
    assert_eq!(HandCrankedError::InvalidAddress.code(), 9);
    assert_eq!(HandCrankedError::StoreFailure(StoreError::NotEnoughRecords).code(), 10);
    assert_eq!(HandCrankedError::StoreFailure(StoreError::ForeignRecord).code(), 10);
    assert_eq!(HandCrankedError::StoreFailure(StoreError::NoStorage).code(), 10);
}

#[test]
fn error_messages() {
    assert_eq!(HandCrankedError::InvalidInstruction.message(), "Invalid instruction");
    assert_eq!(HandCrankedError::InvalidAccountData.message(), "Invalid account data");
    assert_eq!(HandCrankedError::NotRentExempt.message(), "Account is not rent exempt");
    assert_eq!(HandCrankedError::AlreadyInitialized.message(), "State already initialized");
    assert_eq!(HandCrankedError::Unauthorized.message(), "Unauthorized");
    assert_eq!(HandCrankedError::DuplicateCommitment.message(), "Note commitment already exists");
    assert_eq!(HandCrankedError::NullifierAlreadySpent.message(), "Nullifier already spent");
    assert_eq!(HandCrankedError::InvalidProof.message(), "Invalid proof");
    assert_eq!(HandCrankedError::UnsupportedProofSystem.message(), "Unsupported proof system");
    assert_eq!(HandCrankedError::InvalidAddress.message(), "Invalid derived address");
    assert_eq!(
        HandCrankedError::StoreFailure(StoreError::NoStorage).message(),
        "Record store failure"
    );
}

#[test]
fn rent_exemption_is_a_balance_at_or_above_the_minimum() {
    assert_eq!(assert_rent_exempt(1_350_240, 1_350_240), Ok(()));
    assert_eq!(assert_rent_exempt(1_350_241, 1_350_240), Ok(()));
    assert_eq!(assert_rent_exempt(1_350_239, 1_350_240), Err(HandCrankedError::NotRentExempt));
    assert_eq!(assert_rent_exempt(0, 1), Err(HandCrankedError::NotRentExempt));
    assert_eq!(assert_rent_exempt(0, 0), Ok(()));
    assert_eq!(assert_rent_exempt(u64::MAX, u64::MAX), Ok(()));
}
