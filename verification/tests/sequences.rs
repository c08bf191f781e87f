use std::collections::BTreeMap;

use hand_cranked_privacy::account::{Account, RecordWrite};
use hand_cranked_privacy::address::{find_global_address, find_note_address};
use hand_cranked_privacy::error::HandCrankedError;
use hand_cranked_privacy::processor::Processor;
use hand_cranked_privacy::state::{GlobalState, NoteState};

const PROGRAM: [u8; 32] = [7u8; 32];

/// A small deterministic generator: the sequences are the same on every run.
struct Dice(u64);

impl Dice {
    fn roll(&mut self, sides: u64) -> u64 {
        self.0 ^= self.0 << 13;
        self.0 ^= self.0 >> 7;
        self.0 ^= self.0 << 17;
        self.0 % sides
    }
}

/// The record store of a host, keyed by address.
struct Store {
    records: BTreeMap<[u8; 32], Account>,
}

impl Store {
    fn new() -> Store {
        let mut records = BTreeMap::new();
        let key = find_global_address(&PROGRAM).unwrap().address;
        let data = GlobalState { is_initialized: true, version: 1, authority: [0xa1; 32] }.pack();
        records.insert(key, Account { key, owner: PROGRAM, lamports: 1_000, is_signer: false, data });
        Store { records }
    }

    fn global(&self) -> Account {
        self.records[&find_global_address(&PROGRAM).unwrap().address].clone()
    }

    fn note(&self, commitment: u8) -> Account {
        let key = find_note_address(&PROGRAM, &[commitment; 32]).unwrap().address;
        self.records.get(&key).cloned().unwrap_or(Account {
            key,
            owner: [0; 32],
            lamports: 0,
            is_signer: false,
            data: vec![],
        })
    }

    fn commit(&mut self, accounts: &[Account], writes: &[RecordWrite]) {
        for write in writes {
            let mut record = accounts[write.index].clone();
            if write.create.is_some() {
                record.owner = PROGRAM;
                record.lamports = 1_000;
            }
            self.records.insert(record.key, record);
        }
    }

    fn notes(&self) -> Vec<([u8; 32], NoteState)> {
        self.records
            .iter()
            .filter_map(|(key, record)| NoteState::unpack(&record.data).map(|note| (*key, note)))
            .filter(|(_, note)| note.is_initialized)
            .collect()
    }
}

fn signer() -> Account {
    Account { key: [0xc1; 32], owner: [0; 32], lamports: 50, is_signer: true, data: vec![] }
}

fn system_program() -> Account {
    Account { key: [0; 32], owner: [0xfe; 32], lamports: 1, is_signer: false, data: vec![] }
}

fn step(store: &mut Store, dice: &mut Dice) -> Result<Vec<RecordWrite>, HandCrankedError> {
    let a = dice.roll(5) as u8 + 1;
    let b = dice.roll(5) as u8 + 1;
    let c = dice.roll(6) as u8;
    let nullifier = [dice.roll(3) as u8; 32];
    let (mut accounts, result) = match dice.roll(3) {
        0 => {
            let mut accounts = vec![store.global(), signer(), store.note(a), system_program()];
            let result = Processor::process_deposit(&PROGRAM, &mut accounts, [a; 32]);
            (accounts, result)
        }
        1 => {
            let verdict = if dice.roll(4) == 0 { Err(HandCrankedError::InvalidProof) } else { Ok(()) };
            let mut accounts = vec![
                store.global(),
                store.note(a),
                store.note(b),
                store.note(c),
                signer(),
                system_program(),
            ];
            let result = Processor::settle_private_transfer(
                &PROGRAM,
                &mut accounts,
                verdict,
                &nullifier,
                &[b; 32],
                &[c; 32],
            );
            (accounts, result)
        }
        _ => {
            let mut accounts = vec![store.global(), store.note(a), signer(), system_program()];
            let result = Processor::process_withdraw(&PROGRAM, &mut accounts, &nullifier);
            (accounts, result)
        }
    };
    if let Ok(writes) = &result {
        store.commit(&accounts, writes);
    }
    accounts.clear();
    result
}

#[test]
fn random_sequences_keep_notes_and_keep_them_spent() {
    for seed in 1..=8u64 {
        let mut dice = Dice(seed.wrapping_mul(0x9e37_79b9_7f4a_7c15));
        let mut store = Store::new();
        let mut went_through = 0;
        let mut spends = 0;
        for _ in 0..400 {
            let before = store.notes();
            let records_before = store.records.clone();
            let result = step(&mut store, &mut dice);
            if result.is_ok() {
                went_through += 1;
            } else {
                assert_eq!(store.records, records_before);
            }
            let after: BTreeMap<[u8; 32], NoteState> = store.notes().into_iter().collect();
            for (key, note) in before {
                let now = after.get(&key).expect("a note never goes away");
                assert_eq!(now.commitment, note.commitment);
                assert!(now.spent || !note.spent, "a spent note never becomes unspent");
                if note.spent {
                    assert_eq!(*now, note, "a spent note never changes");
                } else if now.spent {
                    spends += 1;
                }
            }
            for (key, note) in &after {
                assert_eq!(*key, find_note_address(&PROGRAM, &note.commitment).unwrap().address);
            }
            let mut commitments: Vec<[u8; 32]> = after.values().map(|n| n.commitment).collect();
            commitments.sort();
            commitments.dedup();
            assert_eq!(commitments.len(), after.len(), "one note for each commitment");
        }
        assert!(went_through > 5);
        assert!(spends > 0);
    }
}
