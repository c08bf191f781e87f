//! What holds of the ledger across transitions: a commitment has one note,
//! a note stays, a spent note stays spent, and setup happens once.

use vstd::prelude::*;
use crate::account::{ledger_wf, AccountView};
use crate::address::note_address;
use crate::bytes::zero_hash;
use crate::error::HandCrankedError;
use crate::instruction::{lemma_parse_bytes, InstructionView};
use crate::processor::{
    config_error, deposit_spec, initialize_spec, mint_error, private_transfer_spec, process_spec,
    stored_global, withdraw_spec, Staged,
};
use crate::state::{GlobalView, NoteView};
use crate::zk::ProofVerifier;

verus! {

/// Whether a record holds a note that was created.
pub open spec fn holds_note(record: AccountView) -> bool {
    NoteView::parse(record.data) matches Some(note) && note.is_initialized
}

/// Whether a record holds a note that was created and spent.
pub open spec fn holds_spent_note(record: AccountView) -> bool {
    NoteView::parse(record.data) matches Some(note) && note.is_initialized && note.spent
}

/// A request stands for its operation: the encoding of a well-formed
/// operation is processed as that operation.
pub proof fn law_request_is_its_operation<V: ProofVerifier>(
    program_id: Seq<u8>,
    accounts: Seq<AccountView>,
    request: InstructionView,
    verifier: V,
)
    requires
        request.wf(),
    ensures
        process_spec(program_id, accounts, request.bytes(), verifier) == (match request {
            InstructionView::Initialize => initialize_spec(program_id, accounts),
            InstructionView::Deposit { commitment } => deposit_spec(
                program_id,
                accounts,
                commitment,
            ),
            InstructionView::PrivateTransfer {
                proof_system,
                proof,
                public_inputs_commitment,
                nullifier,
                new_commitment_1,
                new_commitment_2,
            } => private_transfer_spec(
                program_id,
                accounts,
                verifier.verdict(proof_system, proof, public_inputs_commitment, nullifier),
                nullifier,
                new_commitment_1,
                new_commitment_2,
            ),
            InstructionView::Withdraw { nullifier } => withdraw_spec(
                program_id,
                accounts,
                nullifier,
            ),
        }),
{
    lemma_parse_bytes(request);
}

/// A record that holds a note takes no second one: a deposit or a mint into
/// it fails, with `DuplicateCommitment` where the record sits at the address
/// derived for the commitment and with `InvalidAddress` where it does not.
pub proof fn law_note_record_takes_no_second_note(
    program_id: Seq<u8>,
    target: AccountView,
    commitment: Seq<u8>,
    taken: Seq<Seq<u8>>,
)
    requires
        holds_note(target),
    ensures
        mint_error(program_id, target, commitment, taken) == Some(
            if note_address(program_id, commitment) matches Some(derived) && derived.0
                == target.key {
                HandCrankedError::DuplicateCommitment
            } else {
                HandCrankedError::InvalidAddress
            },
        ),
{
}

/// A deposit that went through cannot be repeated: the same deposit on the
/// records that it left fails with `DuplicateCommitment`.
pub proof fn law_second_deposit_fails(
    program_id: Seq<u8>,
    accounts: Seq<AccountView>,
    commitment: Seq<u8>,
)
    requires
        commitment.len() == 32,
        deposit_spec(program_id, accounts, commitment) is Ok,
    ensures
        deposit_spec(
            program_id,
            deposit_spec(program_id, accounts, commitment).unwrap().accounts,
            commitment,
        ) == Err::<Staged, _>(HandCrankedError::DuplicateCommitment),
{
    NoteView::minted(commitment).lemma_parse_bytes();
}

/// A note comes into being only at the address derived for its commitment,
/// and unspent: where a request turns a record that held no note into one
/// that holds a note, the record sits at the address of that note's
/// commitment. Equal commitments derive equal addresses, so no two records
/// ever hold a note for the same commitment.
pub proof fn law_note_is_born_at_its_address<V: ProofVerifier>(
    program_id: Seq<u8>,
    accounts: Seq<AccountView>,
    instruction_data: Seq<u8>,
    verifier: V,
    i: int,
)
    requires
        ledger_wf(accounts),
        0 <= i < accounts.len(),
        !holds_note(accounts[i]),
        process_spec(program_id, accounts, instruction_data, verifier) matches Ok(staged)
            && holds_note(staged.accounts[i]),
    ensures
        ({
            let staged = process_spec(program_id, accounts, instruction_data, verifier).unwrap();
            let note = NoteView::parse(staged.accounts[i].data).unwrap();
            &&& note_address(program_id, note.commitment) matches Some(derived) && derived.0
                == accounts[i].key
            &&& staged.accounts[i].key == accounts[i].key
            &&& !note.spent
            &&& note.nullifier == zero_hash()
        }),
{
    let request = InstructionView::parse(instruction_data).unwrap();
    crate::instruction::lemma_bytes_parse(instruction_data);
    match request {
        InstructionView::Initialize => {
            lemma_setup_writes_no_note(program_id, accounts);
        },
        InstructionView::Deposit { commitment } => {
            NoteView::minted(commitment).lemma_parse_bytes();
        },
        InstructionView::PrivateTransfer {
            proof_system,
            proof,
            public_inputs_commitment,
            nullifier,
            new_commitment_1,
            new_commitment_2,
        } => {
            let spent = NoteView::parse(accounts[1].data).unwrap();
            NoteView::lemma_bytes_parse(accounts[1].data);
            spent.consumed(nullifier).lemma_parse_bytes();
            NoteView::minted(new_commitment_1).lemma_parse_bytes();
            NoteView::minted(new_commitment_2).lemma_parse_bytes();
        },
        InstructionView::Withdraw { nullifier } => {
            let note = NoteView::parse(accounts[1].data).unwrap();
            NoteView::lemma_bytes_parse(accounts[1].data);
            NoteView { spent: true, ..note }.lemma_parse_bytes();
        },
    }
}

/// A note stays: whatever request goes through, a record that held a note
/// holds a note for the same commitment afterwards, at the same address, and
/// a note that was spent is spent afterwards. A request that fails changes
/// nothing at all.
pub proof fn law_note_stays_and_spent_stays<V: ProofVerifier>(
    program_id: Seq<u8>,
    accounts: Seq<AccountView>,
    instruction_data: Seq<u8>,
    verifier: V,
    i: int,
)
    requires
        ledger_wf(accounts),
        0 <= i < accounts.len(),
        holds_note(accounts[i]),
        process_spec(program_id, accounts, instruction_data, verifier) is Ok,
    ensures
        ({
            let staged = process_spec(program_id, accounts, instruction_data, verifier).unwrap();
            let before = NoteView::parse(accounts[i].data).unwrap();
            let after = NoteView::parse(staged.accounts[i].data).unwrap();
            &&& holds_note(staged.accounts[i])
            &&& staged.accounts[i].key == accounts[i].key
            &&& after.commitment == before.commitment
            &&& before.spent ==> after.spent
        }),
{
    let request = InstructionView::parse(instruction_data).unwrap();
    crate::instruction::lemma_bytes_parse(instruction_data);
    NoteView::lemma_bytes_parse(accounts[i].data);
    match request {
        InstructionView::Initialize => {},
        InstructionView::Deposit { commitment } => {},
        InstructionView::PrivateTransfer {
            proof_system,
            proof,
            public_inputs_commitment,
            nullifier,
            new_commitment_1,
            new_commitment_2,
        } => {
            NoteView::lemma_bytes_parse(accounts[1].data);
            NoteView::parse(accounts[1].data).unwrap().consumed(nullifier).lemma_parse_bytes();
        },
        InstructionView::Withdraw { nullifier } => {
            let note = NoteView::parse(accounts[1].data).unwrap();
            NoteView::lemma_bytes_parse(accounts[1].data);
            NoteView { spent: true, ..note }.lemma_parse_bytes();
        },
    }
}

/// A spent note is final: no request that goes through changes a byte of a
/// record that holds a spent note.
pub proof fn law_spent_note_is_final<V: ProofVerifier>(
    program_id: Seq<u8>,
    accounts: Seq<AccountView>,
    instruction_data: Seq<u8>,
    verifier: V,
    i: int,
)
    requires
        0 <= i < accounts.len(),
        holds_spent_note(accounts[i]),
        process_spec(program_id, accounts, instruction_data, verifier) is Ok,
    ensures
        process_spec(program_id, accounts, instruction_data, verifier).unwrap().accounts[i]
            == accounts[i],
{
}

/// A spent note cannot be spent again: a private transfer on a note that is
/// spent fails with `NullifierAlreadySpent`, whatever the verifier says of
/// the proof, once the request is admissible at all (six records, the
/// prover's signature, a configuration record of this program that was set up).
pub proof fn law_spent_note_is_not_spent_again(
    program_id: Seq<u8>,
    accounts: Seq<AccountView>,
    verdict: Result<(), HandCrankedError>,
    nullifier: Seq<u8>,
    new_commitment_1: Seq<u8>,
    new_commitment_2: Seq<u8>,
)
    requires
        accounts.len() >= 6,
        accounts[4].is_signer,
        config_error(program_id, accounts[0]) is None,
        NoteView::parse(accounts[1].data) matches Some(note) && note.spent,
    ensures
        private_transfer_spec(
            program_id,
            accounts,
            verdict,
            nullifier,
            new_commitment_1,
            new_commitment_2,
        ) == Err::<Staged, _>(HandCrankedError::NullifierAlreadySpent),
{
}

/// A verifier's refusal stops the transfer: where the note can be spent and
/// the verdict is an error, the transfer fails with that error.
pub proof fn law_refused_proof_stops_transfer(
    program_id: Seq<u8>,
    accounts: Seq<AccountView>,
    refusal: HandCrankedError,
    nullifier: Seq<u8>,
    new_commitment_1: Seq<u8>,
    new_commitment_2: Seq<u8>,
)
    requires
        crate::processor::spend_error(program_id, accounts) is None,
    ensures
        private_transfer_spec(
            program_id,
            accounts,
            Err(refusal),
            nullifier,
            new_commitment_1,
            new_commitment_2,
        ) == Err::<Staged, _>(refusal),
{
}

/// A configuration that was set up is final: no request that goes through
/// changes a byte of a record that holds one, so the authority of the setup
/// stays.
pub proof fn law_configuration_is_final<V: ProofVerifier>(
    program_id: Seq<u8>,
    accounts: Seq<AccountView>,
    instruction_data: Seq<u8>,
    verifier: V,
    i: int,
)
    requires
        0 <= i < accounts.len(),
        GlobalView::parse(accounts[i].data) matches Some(config) && config.is_initialized,
        process_spec(program_id, accounts, instruction_data, verifier) is Ok,
    ensures
        process_spec(program_id, accounts, instruction_data, verifier).unwrap().accounts[i]
            == accounts[i],
{
}

/// A note whose stored nullifier is the all-zero sentinel, as that of every
/// note that was only deposited or minted, leaves the pool under no other
/// nullifier: a withdrawal that supplies one fails with
/// `NullifierAlreadySpent`, once the request is admissible at all.
pub proof fn law_unstaged_note_is_not_withdrawn(
    program_id: Seq<u8>,
    accounts: Seq<AccountView>,
    nullifier: Seq<u8>,
)
    requires
        accounts.len() >= 4,
        accounts[2].is_signer,
        accounts[0].owner == program_id,
        NoteView::parse(accounts[1].data) matches Some(note) && note.nullifier == zero_hash(),
        nullifier != zero_hash(),
    ensures
        withdraw_spec(program_id, accounts, nullifier) == Err::<Staged, _>(
            HandCrankedError::NullifierAlreadySpent,
        ),
{
}

/// A request changes only what it stages: where it goes through, no record
/// is added or dropped, every record keeps its address, holder, balance and
/// signature, and a record that no staged write names keeps its bytes too.
pub proof fn law_only_staged_records_change<V: ProofVerifier>(
    program_id: Seq<u8>,
    accounts: Seq<AccountView>,
    instruction_data: Seq<u8>,
    verifier: V,
    i: int,
)
    requires
        0 <= i < accounts.len(),
        process_spec(program_id, accounts, instruction_data, verifier) is Ok,
    ensures
        ({
            let staged = process_spec(program_id, accounts, instruction_data, verifier).unwrap();
            &&& staged.accounts.len() == accounts.len()
            &&& staged.accounts[i] == accounts[i].with_data(staged.accounts[i].data)
            &&& (forall|k: int| 0 <= k < staged.writes.len() ==> staged.writes[k].index != i)
                ==> staged.accounts[i] == accounts[i]
        }),
{
    let staged = process_spec(program_id, accounts, instruction_data, verifier).unwrap();
    if forall|k: int| 0 <= k < staged.writes.len() ==> staged.writes[k].index != i {
        if staged.writes.len() > 0 {
            assert(staged.writes[0].index != i);
        }
        if staged.writes.len() > 1 {
            assert(staged.writes[1].index != i);
        }
        if staged.writes.len() > 2 {
            assert(staged.writes[2].index != i);
        }
    }
}

/// Setup happens once: after a setup that went through, every further setup
/// on that configuration record fails with `AlreadyInitialized`, whoever
/// signs it, and the record keeps the authority of the first.
pub proof fn law_setup_happens_once(
    program_id: Seq<u8>,
    accounts: Seq<AccountView>,
    again: Seq<AccountView>,
)
    requires
        ledger_wf(accounts),
        initialize_spec(program_id, accounts) is Ok,
        again.len() >= 3,
        again[1].is_signer,
        again[0] == initialize_spec(program_id, accounts).unwrap().accounts[0],
    ensures
        initialize_spec(program_id, again) == Err::<Staged, _>(
            HandCrankedError::AlreadyInitialized,
        ),
        stored_global(again[0].data) == Some(
            GlobalView { is_initialized: true, version: 1, authority: accounts[1].key },
        ),
{
    let config = GlobalView { is_initialized: true, version: 1, authority: accounts[1].key };
    assert(accounts[1].wf());
    config.lemma_parse_bytes();
}

/// What setup writes is no note: a configuration has 34 bytes and a note 66.
proof fn lemma_setup_writes_no_note(program_id: Seq<u8>, accounts: Seq<AccountView>)
    requires
        ledger_wf(accounts),
        initialize_spec(program_id, accounts) is Ok,
    ensures
        !holds_note(initialize_spec(program_id, accounts).unwrap().accounts[0]),
{
    let config = GlobalView { is_initialized: true, version: 1, authority: accounts[1].key };
    assert(accounts[1].wf());
}

} // verus!
