//! The transition engine: the four operations of the ledger.
//!
//! Every operation validates all it has to validate and only then stages its
//! writes, so a request that fails leaves every record as it was. What each
//! operation does is given first as a function on mathematical values; the
//! executable operations are proved to compute exactly that.

use vstd::prelude::*;
use crate::account::{
    ledger, write_views, Account, AccountView, Creation, CreationView, RecordWrite,
    RecordWriteView,
};
use crate::address::{
    find_global_address, find_note_address, global_address, global_seeds, note_address,
    note_seeds, signer_seeds,
};
use crate::bytes::{contains_hash, hash_eq, hashes, is_zero_hash, zero_hash};
use crate::error::{HandCrankedError, StoreError};
use crate::instruction::{HandCrankedInstruction, InstructionView, ProofSystem};
use crate::state::{GlobalState, GlobalView, NoteState, NoteView};
use crate::zk::ProofVerifier;

verus! {

/// What a transition that went through has staged: the records after it, and
/// the writes that the host is to persist, in order.
pub struct Staged {
    pub accounts: Seq<AccountView>,
    pub writes: Seq<RecordWriteView>,
}

/// The configuration that a record's bytes stand for: a record without
/// storage stands for the configuration before setup.
pub open spec fn stored_global(data: Seq<u8>) -> Option<GlobalView> {
    if data.len() == 0 {
        Some(GlobalView::fresh())
    } else {
        GlobalView::parse(data)
    }
}

/// The note that a record's bytes stand for: a record without storage stands
/// for the note that was never created.
pub open spec fn stored_note(data: Seq<u8>) -> Option<NoteView> {
    if data.len() == 0 {
        Some(NoteView::fresh())
    } else {
        NoteView::parse(data)
    }
}

/// Why a record cannot serve as the configuration of `program_id`: the
/// program does not hold it, or it does not hold a configuration that was
/// set up.
pub open spec fn config_error(program_id: Seq<u8>, record: AccountView) -> Option<
    HandCrankedError,
> {
    if record.owner != program_id {
        Some(HandCrankedError::StoreFailure(StoreError::ForeignRecord))
    } else if !(GlobalView::parse(record.data) matches Some(config) && config.is_initialized) {
        Some(HandCrankedError::InvalidAccountData)
    } else {
        None
    }
}

/// Whether the configuration record is yet to be created: it has no balance
/// and the program does not hold it.
pub open spec fn global_absent(record: AccountView, program_id: Seq<u8>) -> bool {
    record.owner != program_id && record.lamports == 0
}

/// Whether a note record is yet to be created: it has no balance.
pub open spec fn note_absent(record: AccountView) -> bool {
    record.lamports == 0
}

/// The staged write of the record at `index`, which `payer` funds where the
/// record is absent and which the program signs for under `seeds` and `bump`.
pub open spec fn derived_write(
    index: usize,
    absent: bool,
    payer: usize,
    seeds: Seq<Seq<u8>>,
    bump: u8,
) -> RecordWriteView {
    RecordWriteView {
        index,
        create: if absent {
            Some(CreationView { payer, seeds: signer_seeds(seeds, bump) })
        } else {
            None
        },
    }
}

/// The staged write of a record that exists.
pub open spec fn plain_write(index: usize) -> RecordWriteView {
    RecordWriteView { index, create: None }
}

/// The outcome of a transition from the error that stops it, if any, and
/// from what it stages otherwise.
pub open spec fn outcome(error: Option<HandCrankedError>, staged: Staged) -> Result<
    Staged,
    HandCrankedError,
> {
    match error {
        Some(e) => Err(e),
        None => Ok(staged),
    }
}

/// Why setup does not go through, in the order in which the reasons are looked for.
///
/// Records: the configuration record, the authority, the system program.
pub open spec fn initialize_error(program_id: Seq<u8>, accounts: Seq<AccountView>) -> Option<
    HandCrankedError,
> {
    if accounts.len() < 3 {
        Some(HandCrankedError::StoreFailure(StoreError::NotEnoughRecords))
    } else if !accounts[1].is_signer {
        Some(HandCrankedError::Unauthorized)
    } else if global_address(program_id) is None || global_address(program_id).unwrap().0
        != accounts[0].key {
        Some(HandCrankedError::InvalidAddress)
    } else if stored_global(accounts[0].data) is None {
        Some(HandCrankedError::InvalidAccountData)
    } else if stored_global(accounts[0].data).unwrap().is_initialized {
        Some(HandCrankedError::AlreadyInitialized)
    } else if accounts[0].data.len() == 0 && !global_absent(accounts[0], program_id) {
        Some(HandCrankedError::StoreFailure(StoreError::NoStorage))
    } else {
        None
    }
}

/// What setup stages: the configuration record says that it is initialized,
/// at the current version, by the authority that signed.
pub open spec fn initialize_staged(program_id: Seq<u8>, accounts: Seq<AccountView>) -> Staged {
    let config = GlobalView { is_initialized: true, version: 1, authority: accounts[1].key };
    Staged {
        accounts: accounts.update(0, accounts[0].with_data(config.bytes())),
        writes: seq![
            derived_write(
                0,
                global_absent(accounts[0], program_id),
                1,
                global_seeds(),
                global_address(program_id).unwrap().1,
            ),
        ],
    }
}

/// Setup, as a function of the records.
pub open spec fn initialize_spec(program_id: Seq<u8>, accounts: Seq<AccountView>) -> Result<
    Staged,
    HandCrankedError,
> {
    outcome(initialize_error(program_id, accounts), initialize_staged(program_id, accounts))
}

/// Why the note for `commitment` cannot be created in `target`, in the order
/// in which the reasons are looked for. `taken` holds the addresses of the
/// records that the same transition writes before this one: a target among
/// them holds a note by then.
pub open spec fn mint_error(
    program_id: Seq<u8>,
    target: AccountView,
    commitment: Seq<u8>,
    taken: Seq<Seq<u8>>,
) -> Option<HandCrankedError> {
    if note_address(program_id, commitment) is None || note_address(
        program_id,
        commitment,
    ).unwrap().0 != target.key {
        Some(HandCrankedError::InvalidAddress)
    } else if stored_note(target.data) is None {
        Some(HandCrankedError::InvalidAccountData)
    } else if stored_note(target.data).unwrap().is_initialized || taken.contains(target.key) {
        Some(HandCrankedError::DuplicateCommitment)
    } else if target.data.len() == 0 && !note_absent(target) {
        Some(HandCrankedError::StoreFailure(StoreError::NoStorage))
    } else {
        None
    }
}

/// The staged write of the new note for `commitment` in the record at `index`.
pub open spec fn mint_write(
    program_id: Seq<u8>,
    target: AccountView,
    commitment: Seq<u8>,
    index: usize,
    payer: usize,
) -> RecordWriteView {
    derived_write(
        index,
        note_absent(target),
        payer,
        note_seeds(commitment),
        note_address(program_id, commitment).unwrap().1,
    )
}

/// Why a deposit does not go through, in the order in which the reasons are looked for.
///
/// Records: the configuration record, the user, the note, the system program.
pub open spec fn deposit_error(
    program_id: Seq<u8>,
    accounts: Seq<AccountView>,
    commitment: Seq<u8>,
) -> Option<HandCrankedError> {
    if accounts.len() < 4 {
        Some(HandCrankedError::StoreFailure(StoreError::NotEnoughRecords))
    } else if !accounts[1].is_signer {
        Some(HandCrankedError::Unauthorized)
    } else if config_error(program_id, accounts[0]) is Some {
        config_error(program_id, accounts[0])
    } else {
        mint_error(program_id, accounts[2], commitment, Seq::empty())
    }
}

/// What a deposit stages: the note record holds the unspent note of the commitment.
pub open spec fn deposit_staged(
    program_id: Seq<u8>,
    accounts: Seq<AccountView>,
    commitment: Seq<u8>,
) -> Staged {
    Staged {
        accounts: accounts.update(
            2,
            accounts[2].with_data(NoteView::minted(commitment).bytes()),
        ),
        writes: seq![mint_write(program_id, accounts[2], commitment, 2, 1)],
    }
}

/// A deposit, as a function of the records and the commitment.
pub open spec fn deposit_spec(
    program_id: Seq<u8>,
    accounts: Seq<AccountView>,
    commitment: Seq<u8>,
) -> Result<Staged, HandCrankedError> {
    outcome(
        deposit_error(program_id, accounts, commitment),
        deposit_staged(program_id, accounts, commitment),
    )
}

/// Why the note of a private transfer cannot be spent, before any proof is
/// looked at, in the order in which the reasons are looked for.
///
/// Records: the configuration record, the spent note, the first new note,
/// the second new note, the prover, the system program.
pub open spec fn spend_error(program_id: Seq<u8>, accounts: Seq<AccountView>) -> Option<
    HandCrankedError,
> {
    if accounts.len() < 6 {
        Some(HandCrankedError::StoreFailure(StoreError::NotEnoughRecords))
    } else if !accounts[4].is_signer {
        Some(HandCrankedError::Unauthorized)
    } else if config_error(program_id, accounts[0]) is Some {
        config_error(program_id, accounts[0])
    } else if NoteView::parse(accounts[1].data) is None {
        Some(HandCrankedError::InvalidAccountData)
    } else if !NoteView::parse(accounts[1].data).unwrap().is_initialized || NoteView::parse(
        accounts[1].data,
    ).unwrap().spent {
        Some(HandCrankedError::NullifierAlreadySpent)
    } else {
        None
    }
}

/// Why a private transfer does not go through, given the verifier's verdict
/// on its proof, in the order in which the reasons are looked for: the spent
/// note, the proof, the first new note, the second new note where there is one.
pub open spec fn private_transfer_error(
    program_id: Seq<u8>,
    accounts: Seq<AccountView>,
    verdict: Result<(), HandCrankedError>,
    new_commitment_1: Seq<u8>,
    new_commitment_2: Seq<u8>,
) -> Option<HandCrankedError> {
    if spend_error(program_id, accounts) is Some {
        spend_error(program_id, accounts)
    } else if verdict is Err {
        Some(verdict->Err_0)
    } else if mint_error(program_id, accounts[2], new_commitment_1, seq![accounts[1].key])
        is Some {
        mint_error(program_id, accounts[2], new_commitment_1, seq![accounts[1].key])
    } else if new_commitment_2 != zero_hash() {
        mint_error(
            program_id,
            accounts[3],
            new_commitment_2,
            seq![accounts[1].key, accounts[2].key],
        )
    } else {
        None
    }
}

/// What a private transfer stages: the spent note is consumed under the
/// nullifier, the first new note exists, and so does the second unless its
/// commitment is the all-zero sentinel.
pub open spec fn private_transfer_staged(
    program_id: Seq<u8>,
    accounts: Seq<AccountView>,
    nullifier: Seq<u8>,
    new_commitment_1: Seq<u8>,
    new_commitment_2: Seq<u8>,
) -> Staged {
    let spent = NoteView::parse(accounts[1].data).unwrap().consumed(nullifier);
    let first = Staged {
        accounts: accounts.update(1, accounts[1].with_data(spent.bytes())).update(
            2,
            accounts[2].with_data(NoteView::minted(new_commitment_1).bytes()),
        ),
        writes: seq![
            plain_write(1),
            mint_write(program_id, accounts[2], new_commitment_1, 2, 4),
        ],
    };
    if new_commitment_2 == zero_hash() {
        first
    } else {
        Staged {
            accounts: first.accounts.update(
                3,
                accounts[3].with_data(NoteView::minted(new_commitment_2).bytes()),
            ),
            writes: first.writes.push(
                mint_write(program_id, accounts[3], new_commitment_2, 3, 4),
            ),
        }
    }
}

/// A private transfer, as a function of the records, the verifier's verdict,
/// the nullifier and the new commitments.
pub open spec fn private_transfer_spec(
    program_id: Seq<u8>,
    accounts: Seq<AccountView>,
    verdict: Result<(), HandCrankedError>,
    nullifier: Seq<u8>,
    new_commitment_1: Seq<u8>,
    new_commitment_2: Seq<u8>,
) -> Result<Staged, HandCrankedError> {
    outcome(
        private_transfer_error(program_id, accounts, verdict, new_commitment_1, new_commitment_2),
        private_transfer_staged(
            program_id,
            accounts,
            nullifier,
            new_commitment_1,
            new_commitment_2,
        ),
    )
}

/// Why a withdrawal does not go through, in the order in which the reasons are looked for.
///
/// Records: the configuration record, the note, the recipient, the system program.
pub open spec fn withdraw_error(
    program_id: Seq<u8>,
    accounts: Seq<AccountView>,
    nullifier: Seq<u8>,
) -> Option<HandCrankedError> {
    if accounts.len() < 4 {
        Some(HandCrankedError::StoreFailure(StoreError::NotEnoughRecords))
    } else if !accounts[2].is_signer {
        Some(HandCrankedError::Unauthorized)
    } else if accounts[0].owner != program_id {
        Some(HandCrankedError::StoreFailure(StoreError::ForeignRecord))
    } else if NoteView::parse(accounts[1].data) is None {
        Some(HandCrankedError::InvalidAccountData)
    } else if !NoteView::parse(accounts[1].data).unwrap().is_initialized || NoteView::parse(
        accounts[1].data,
    ).unwrap().spent || NoteView::parse(accounts[1].data).unwrap().nullifier != nullifier {
        Some(HandCrankedError::NullifierAlreadySpent)
    } else {
        None
    }
}

/// What a withdrawal stages: the note is spent, and nothing else of it changes.
pub open spec fn withdraw_staged(accounts: Seq<AccountView>) -> Staged {
    let note = NoteView::parse(accounts[1].data).unwrap();
    Staged {
        accounts: accounts.update(
            1,
            accounts[1].with_data(NoteView { spent: true, ..note }.bytes()),
        ),
        writes: seq![plain_write(1)],
    }
}

/// A withdrawal, as a function of the records and the nullifier.
pub open spec fn withdraw_spec(
    program_id: Seq<u8>,
    accounts: Seq<AccountView>,
    nullifier: Seq<u8>,
) -> Result<Staged, HandCrankedError> {
    outcome(withdraw_error(program_id, accounts, nullifier), withdraw_staged(accounts))
}

/// A request, as a function of the records, the request bytes and the
/// verifier: bytes that encode no operation are an invalid instruction, and
/// every operation is what its own function says.
pub open spec fn process_spec<V: ProofVerifier>(
    program_id: Seq<u8>,
    accounts: Seq<AccountView>,
    instruction_data: Seq<u8>,
    verifier: V,
) -> Result<Staged, HandCrankedError> {
    match InstructionView::parse(instruction_data) {
        None => Err(HandCrankedError::InvalidInstruction),
        Some(InstructionView::Initialize) => initialize_spec(program_id, accounts),
        Some(InstructionView::Deposit { commitment }) => deposit_spec(
            program_id,
            accounts,
            commitment,
        ),
        Some(
            InstructionView::PrivateTransfer {
                proof_system,
                proof,
                public_inputs_commitment,
                nullifier,
                new_commitment_1,
                new_commitment_2,
            },
        ) => private_transfer_spec(
            program_id,
            accounts,
            verifier.verdict(proof_system, proof, public_inputs_commitment, nullifier),
            nullifier,
            new_commitment_1,
            new_commitment_2,
        ),
        Some(InstructionView::Withdraw { nullifier }) => withdraw_spec(
            program_id,
            accounts,
            nullifier,
        ),
    }
}

/// Whether an executable transition did what `expected` says: on success the
/// records and the staged writes are those of `expected`, and on failure the
/// error is that of `expected` and every record is as it was.
pub open spec fn carried_out(
    expected: Result<Staged, HandCrankedError>,
    before: Seq<Account>,
    after: Seq<Account>,
    r: Result<Vec<RecordWrite>, HandCrankedError>,
) -> bool {
    match expected {
        Ok(staged) => r matches Ok(writes) && ledger(after) == staged.accounts && write_views(
            writes@,
        ) == staged.writes,
        Err(e) => r matches Err(f) && f == e && ledger(after) == ledger(before),
    }
}

/// The transition engine.
pub struct Processor;

impl Processor {
    /// Checks that `record` is the configuration of `program_id`.
    ///
    /// `Ok` exactly where the program holds the record and the record
    /// decodes to a configuration that was set up.
    pub fn check_config(program_id: &[u8; 32], record: &Account) -> (r: Result<
        (),
        HandCrankedError,
    >)
        ensures
            match r {
                Ok(_) => config_error(program_id@, record@) is None,
                Err(e) => config_error(program_id@, record@) == Some(e),
            },
    {
        if !hash_eq(&record.owner, program_id) {
            return Err(HandCrankedError::StoreFailure(StoreError::ForeignRecord));
        }
        match GlobalState::unpack(record.data.as_slice()) {
            Some(config) => {
                if config.is_initialized {
                    Ok(())
                } else {
                    Err(HandCrankedError::InvalidAccountData)
                }
            },
            None => Err(HandCrankedError::InvalidAccountData),
        }
    }

    /// Plans the creation of the note for `commitment` in the record `note`,
    /// which stands at `index` among the records of the request.
    ///
    /// `Ok` exactly where nothing stands against the creation, and then the
    /// new contents of the record and its staged write, which names `payer`
    /// where the record is yet to be created. Every failure comes with its
    /// reason. Nothing is written here: the caller stages the contents once
    /// the whole transition is known to go through.
    pub fn create_or_init_note(
        program_id: &[u8; 32],
        note: &Account,
        commitment: &[u8; 32],
        index: usize,
        payer: usize,
        taken: &Vec<[u8; 32]>,
    ) -> (r: Result<(Vec<u8>, RecordWrite), HandCrankedError>)
        ensures
            match r {
                Ok((data, write)) => {
                    &&& mint_error(program_id@, note@, commitment@, hashes(taken@)) is None
                    &&& data@ == NoteView::minted(commitment@).bytes()
                    &&& write@ == mint_write(program_id@, note@, commitment@, index, payer)
                },
                Err(e) => mint_error(program_id@, note@, commitment@, hashes(taken@)) == Some(e),
            },
    {
        let derived = match find_note_address(program_id, commitment) {
            Some(d) => d,
            None => {
                return Err(HandCrankedError::InvalidAddress);
            },
        };
        if !hash_eq(&derived.address, &note.key) {
            return Err(HandCrankedError::InvalidAddress);
        }
        let state = if note.data.len() == 0 {
            NoteState::default()
        } else {
            match NoteState::unpack(note.data.as_slice()) {
                Some(s) => s,
                None => {
                    return Err(HandCrankedError::InvalidAccountData);
                },
            }
        };
        if state.is_initialized || contains_hash(taken, &note.key) {
            return Err(HandCrankedError::DuplicateCommitment);
        }
        let absent = note.lamports == 0;
        if note.data.len() == 0 && !absent {
            return Err(HandCrankedError::StoreFailure(StoreError::NoStorage));
        }
        let minted = NoteState {
            is_initialized: true,
            commitment: *commitment,
            nullifier: [0u8; 32],
            spent: false,
        };
        let create = if absent {
            Some(Creation { payer, seeds: derived.signer_seeds })
        } else {
            None
        };
        Ok((minted.pack(), RecordWrite { index, create }))
    }

    /// Creates the note of a commitment, without a proof.
    ///
    /// Records: the configuration record, the user (signer), the note, the
    /// system program. Goes through exactly where the user signed, the
    /// program holds a configuration record that was set up, the note record
    /// sits at the address derived for the commitment, and it holds no note
    /// yet; then the note record holds the unspent note of the commitment.
    /// Otherwise the error says why, and no record changes.
    pub fn process_deposit(
        program_id: &[u8; 32],
        accounts: &mut Vec<Account>,
        commitment: [u8; 32],
    ) -> (r: Result<Vec<RecordWrite>, HandCrankedError>)
        ensures
            carried_out(
                deposit_spec(program_id@, ledger(old(accounts)@), commitment@),
                old(accounts)@,
                final(accounts)@,
                r,
            ),
    {
        if accounts.len() < 4 {
            return Err(HandCrankedError::StoreFailure(StoreError::NotEnoughRecords));
        }
        if !accounts[1].is_signer {
            return Err(HandCrankedError::Unauthorized);
        }
        match Self::check_config(program_id, &accounts[0]) {
            Ok(_) => {},
            Err(e) => {
                return Err(e);
            },
        }
        let taken: Vec<[u8; 32]> = Vec::new();
        let (data, write) = match Self::create_or_init_note(
            program_id,
            &accounts[2],
            &commitment,
            2,
            1,
            &taken,
        ) {
            Ok(planned) => planned,
            Err(e) => {
                return Err(e);
            },
        };
        accounts[2].data = data;
        let mut writes: Vec<RecordWrite> = Vec::new();
        writes.push(write);
        proof {
            let staged = deposit_staged(program_id@, ledger(old(accounts)@), commitment@);
            assert(ledger(accounts@) =~= staged.accounts);
            assert(write_views(writes@) =~= staged.writes);
        }
        Ok(writes)
    }

    /// Sets up the global configuration.
    ///
    /// Records: the configuration record, the authority (signer), the system
    /// program. Goes through exactly where the authority signed, the
    /// configuration record sits at its derived address and was not set up
    /// before; then it says that it is initialized, at the current version,
    /// by that authority. A second setup fails with `AlreadyInitialized`.
    /// Otherwise the error says why, and no record changes.
    pub fn process_initialize(program_id: &[u8; 32], accounts: &mut Vec<Account>) -> (r: Result<
        Vec<RecordWrite>,
        HandCrankedError,
    >)
        ensures
            carried_out(
                initialize_spec(program_id@, ledger(old(accounts)@)),
                old(accounts)@,
                final(accounts)@,
                r,
            ),
    {
        if accounts.len() < 3 {
            return Err(HandCrankedError::StoreFailure(StoreError::NotEnoughRecords));
        }
        if !accounts[1].is_signer {
            return Err(HandCrankedError::Unauthorized);
        }
        let derived = match find_global_address(program_id) {
            Some(d) => d,
            None => {
                return Err(HandCrankedError::InvalidAddress);
            },
        };
        if !hash_eq(&derived.address, &accounts[0].key) {
            return Err(HandCrankedError::InvalidAddress);
        }
        let state = if accounts[0].data.len() == 0 {
            GlobalState::default()
        } else {
            match GlobalState::unpack(accounts[0].data.as_slice()) {
                Some(s) => s,
                None => {
                    return Err(HandCrankedError::InvalidAccountData);
                },
            }
        };
        if state.is_initialized {
            return Err(HandCrankedError::AlreadyInitialized);
        }
        let absent = !hash_eq(&accounts[0].owner, program_id) && accounts[0].lamports == 0;
        if accounts[0].data.len() == 0 && !absent {
            return Err(HandCrankedError::StoreFailure(StoreError::NoStorage));
        }
        let config = GlobalState {
            is_initialized: true,
            version: GlobalState::VERSION,
            authority: accounts[1].key,
        };
        let create = if absent {
            Some(Creation { payer: 1, seeds: derived.signer_seeds })
        } else {
            None
        };
        accounts[0].data = config.pack();
        let mut writes: Vec<RecordWrite> = Vec::new();
        writes.push(RecordWrite { index: 0, create });
        proof {
            let staged = initialize_staged(program_id@, ledger(old(accounts)@));
            assert(ledger(accounts@) =~= staged.accounts);
            assert(write_views(writes@) =~= staged.writes);
        }
        Ok(writes)
    }

    /// Finds the note that a private transfer is to spend, before any proof
    /// is looked at.
    ///
    /// `Ok` with the note exactly where six records were handed in, the
    /// prover signed, the program holds a configuration record that was set
    /// up, and the record of the spent note decodes to a note that exists and
    /// is unspent. A note that is spent or was never created is turned away
    /// with `NullifierAlreadySpent`, whatever the proof.
    pub fn spendable_note(program_id: &[u8; 32], accounts: &Vec<Account>) -> (r: Result<
        NoteState,
        HandCrankedError,
    >)
        ensures
            match r {
                Ok(note) => spend_error(program_id@, ledger(accounts@)) is None && Some(note@)
                    == NoteView::parse(accounts@[1]@.data),
                Err(e) => spend_error(program_id@, ledger(accounts@)) == Some(e),
            },
    {
        if accounts.len() < 6 {
            return Err(HandCrankedError::StoreFailure(StoreError::NotEnoughRecords));
        }
        if !accounts[4].is_signer {
            return Err(HandCrankedError::Unauthorized);
        }
        match Self::check_config(program_id, &accounts[0]) {
            Ok(_) => {},
            Err(e) => {
                return Err(e);
            },
        }
        let note = match NoteState::unpack(accounts[1].data.as_slice()) {
            Some(n) => n,
            None => {
                return Err(HandCrankedError::InvalidAccountData);
            },
        };
        if !note.is_initialized || note.spent {
            return Err(HandCrankedError::NullifierAlreadySpent);
        }
        Ok(note)
    }

    /// Carries out a private transfer on which the verifier has given its
    /// `verdict`.
    ///
    /// Goes through exactly where the note can be spent, the verdict is `Ok`,
    /// and each new note can be created: the first always, the second unless
    /// its commitment is all zero. Then the spent note is consumed under the
    /// nullifier and the new notes exist. A verdict that is an error comes
    /// back as it is. Whatever fails, no record changes: neither the spent
    /// note nor a new one.
    pub fn settle_private_transfer(
        program_id: &[u8; 32],
        accounts: &mut Vec<Account>,
        verdict: Result<(), HandCrankedError>,
        nullifier: &[u8; 32],
        new_commitment_1: &[u8; 32],
        new_commitment_2: &[u8; 32],
    ) -> (r: Result<Vec<RecordWrite>, HandCrankedError>)
        ensures
            carried_out(
                private_transfer_spec(
                    program_id@,
                    ledger(old(accounts)@),
                    verdict,
                    nullifier@,
                    new_commitment_1@,
                    new_commitment_2@,
                ),
                old(accounts)@,
                final(accounts)@,
                r,
            ),
    {
        let note = match Self::spendable_note(program_id, accounts) {
            Ok(n) => n,
            Err(e) => {
                return Err(e);
            },
        };
        match verdict {
            Ok(_) => {},
            Err(e) => {
                return Err(e);
            },
        }
        let mut taken: Vec<[u8; 32]> = Vec::new();
        taken.push(accounts[1].key);
        assert(hashes(taken@) =~= seq![accounts@[1]@.key]);
        let (data_1, write_1) = match Self::create_or_init_note(
            program_id,
            &accounts[2],
            new_commitment_1,
            2,
            4,
            &taken,
        ) {
            Ok(planned) => planned,
            Err(e) => {
                return Err(e);
            },
        };
        let second = if is_zero_hash(new_commitment_2) {
            None
        } else {
            taken.push(accounts[2].key);
            assert(hashes(taken@) =~= seq![accounts@[1]@.key, accounts@[2]@.key]);
            match Self::create_or_init_note(
                program_id,
                &accounts[3],
                new_commitment_2,
                3,
                4,
                &taken,
            ) {
                Ok(planned) => Some(planned),
                Err(e) => {
                    return Err(e);
                },
            }
        };
        let spent = NoteState {
            is_initialized: note.is_initialized,
            commitment: note.commitment,
            nullifier: *nullifier,
            spent: true,
        };
        let mut writes: Vec<RecordWrite> = Vec::new();
        accounts[1].data = spent.pack();
        writes.push(RecordWrite { index: 1, create: None });
        accounts[2].data = data_1;
        writes.push(write_1);
        match second {
            Some((data_2, write_2)) => {
                accounts[3].data = data_2;
                writes.push(write_2);
            },
            None => {},
        }
        proof {
            let staged = private_transfer_staged(
                program_id@,
                ledger(old(accounts)@),
                nullifier@,
                new_commitment_1@,
                new_commitment_2@,
            );
            assert(ledger(accounts@) =~= staged.accounts);
            assert(write_views(writes@) =~= staged.writes);
        }
        Ok(writes)
    }

    /// Consumes a note under a nullifier and mints one or two new notes,
    /// behind a proof.
    ///
    /// Records: the configuration record, the spent note, the first new note,
    /// the second new note, the prover (signer), the system program. The
    /// verifier is asked only once the note is known to be spendable, with
    /// the proof system, the proof, the public commitment and the nullifier
    /// of the request; what follows is [`Processor::settle_private_transfer`]
    /// on its verdict.
    pub fn process_private_transfer<V: ProofVerifier>(
        program_id: &[u8; 32],
        accounts: &mut Vec<Account>,
        verifier: &V,
        proof_system: ProofSystem,
        proof: &[u8],
        public_inputs_commitment: &[u8; 32],
        nullifier: &[u8; 32],
        new_commitment_1: &[u8; 32],
        new_commitment_2: &[u8; 32],
    ) -> (r: Result<Vec<RecordWrite>, HandCrankedError>)
        ensures
            carried_out(
                private_transfer_spec(
                    program_id@,
                    ledger(old(accounts)@),
                    verifier.verdict(
                        proof_system,
                        proof@,
                        public_inputs_commitment@,
                        nullifier@,
                    ),
                    nullifier@,
                    new_commitment_1@,
                    new_commitment_2@,
                ),
                old(accounts)@,
                final(accounts)@,
                r,
            ),
    {
        match Self::spendable_note(program_id, accounts) {
            Ok(_) => {},
            Err(e) => {
                return Err(e);
            },
        }
        let verdict = verifier.verify(proof_system, proof, public_inputs_commitment, nullifier);
        Self::settle_private_transfer(
            program_id,
            accounts,
            verdict,
            nullifier,
            new_commitment_1,
            new_commitment_2,
        )
    }

    /// Consumes a note on its way out of the pool.
    ///
    /// Records: the configuration record, the note, the recipient (signer),
    /// the system program. Goes through exactly where the recipient signed,
    /// the program holds the configuration record, and the note record
    /// decodes to a note that exists, is unspent and stores the nullifier
    /// supplied; then the note is spent. A note that was never created or is
    /// spent, or whose stored nullifier differs, is turned away with
    /// `NullifierAlreadySpent`.
    /// A note that was only deposited stores the all-zero nullifier, so no
    /// other nullifier withdraws it.
    pub fn process_withdraw(
        program_id: &[u8; 32],
        accounts: &mut Vec<Account>,
        nullifier: &[u8; 32],
    ) -> (r: Result<Vec<RecordWrite>, HandCrankedError>)
        ensures
            carried_out(
                withdraw_spec(program_id@, ledger(old(accounts)@), nullifier@),
                old(accounts)@,
                final(accounts)@,
                r,
            ),
    {
        if accounts.len() < 4 {
            return Err(HandCrankedError::StoreFailure(StoreError::NotEnoughRecords));
        }
        if !accounts[2].is_signer {
            return Err(HandCrankedError::Unauthorized);
        }
        if !hash_eq(&accounts[0].owner, program_id) {
            return Err(HandCrankedError::StoreFailure(StoreError::ForeignRecord));
        }
        let note = match NoteState::unpack(accounts[1].data.as_slice()) {
            Some(n) => n,
            None => {
                return Err(HandCrankedError::InvalidAccountData);
            },
        };
        if !note.is_initialized || note.spent || !hash_eq(&note.nullifier, nullifier) {
            return Err(HandCrankedError::NullifierAlreadySpent);
        }
        let spent = NoteState {
            is_initialized: note.is_initialized,
            commitment: note.commitment,
            nullifier: note.nullifier,
            spent: true,
        };
        accounts[1].data = spent.pack();
        let mut writes: Vec<RecordWrite> = Vec::new();
        writes.push(RecordWrite { index: 1, create: None });
        proof {
            let staged = withdraw_staged(ledger(old(accounts)@));
            assert(ledger(accounts@) =~= staged.accounts);
            assert(write_views(writes@) =~= staged.writes);
        }
        Ok(writes)
    }

    /// Decodes a request and carries out the operation that it names.
    ///
    /// Bytes that encode no operation are an `InvalidInstruction`. On success
    /// the records hold what the operation stages, and the result lists the
    /// writes that the host is to persist, in order; on failure the error
    /// says why and every record is as it was.
    pub fn process<V: ProofVerifier>(
        program_id: &[u8; 32],
        accounts: &mut Vec<Account>,
        instruction_data: &[u8],
        verifier: &V,
    ) -> (r: Result<Vec<RecordWrite>, HandCrankedError>)
        ensures
            carried_out(
                process_spec(program_id@, ledger(old(accounts)@), instruction_data@, *verifier),
                old(accounts)@,
                final(accounts)@,
                r,
            ),
    {
        let instruction = match HandCrankedInstruction::unpack(instruction_data) {
            Ok(i) => i,
            Err(_) => {
                return Err(HandCrankedError::InvalidInstruction);
            },
        };
        match instruction {
            HandCrankedInstruction::Initialize => Self::process_initialize(program_id, accounts),
            HandCrankedInstruction::Deposit { commitment } => Self::process_deposit(
                program_id,
                accounts,
                commitment,
            ),
            HandCrankedInstruction::PrivateTransfer {
                proof_system,
                proof,
                public_inputs_commitment,
                nullifier,
                new_commitment_1,
                new_commitment_2,
            } => Self::process_private_transfer(
                program_id,
                accounts,
                verifier,
                proof_system,
                proof.as_slice(),
                &public_inputs_commitment,
                &nullifier,
                &new_commitment_1,
                &new_commitment_2,
            ),
            HandCrankedInstruction::Withdraw { nullifier } => Self::process_withdraw(
                program_id,
                accounts,
                &nullifier,
            ),
        }
    }
}

} // verus!
