//! The records that a transition works on, as plain values, and the writes
//! that it stages for the host.

use vstd::prelude::*;

verus! {

/// One addressable record as the host hands it in: who holds it, whether it
/// is funded, whether its holder signed, and its stored bytes.
#[derive(Clone, Debug, PartialEq, Eq)]
pub struct Account {
    /// The record's address.
    pub key: [u8; 32],
    /// The program that holds the record.
    pub owner: [u8; 32],
    /// The record's balance. A record without balance does not exist yet.
    pub lamports: u64,
    /// Whether the record's key signed the request.
    pub is_signer: bool,
    /// The stored bytes. Empty where the record has no storage.
    pub data: Vec<u8>,
}

/// What an [`Account`] holds, as mathematical values.
pub struct AccountView {
    pub key: Seq<u8>,
    pub owner: Seq<u8>,
    pub lamports: u64,
    pub is_signer: bool,
    pub data: Seq<u8>,
}

impl View for Account {
    type V = AccountView;

    open spec fn view(&self) -> AccountView {
        AccountView {
            key: self.key@,
            owner: self.owner@,
            lamports: self.lamports,
            is_signer: self.is_signer,
            data: self.data@,
        }
    }
}

impl AccountView {
    /// Address and holder are 32-byte keys.
    pub open spec fn wf(self) -> bool {
        self.key.len() == 32 && self.owner.len() == 32
    }

    /// This record with `data` as its stored bytes and all else as it was.
    pub open spec fn with_data(self, data: Seq<u8>) -> AccountView {
        AccountView { data, ..self }
    }
}

/// The records of a request, each as mathematical values.
pub open spec fn ledger(accounts: Seq<Account>) -> Seq<AccountView> {
    Seq::new(accounts.len(), |i: int| accounts[i]@)
}

/// Every record of the request has 32-byte keys.
pub open spec fn ledger_wf(accounts: Seq<AccountView>) -> bool {
    forall|i: int| 0 <= i < accounts.len() ==> #[trigger] accounts[i].wf()
}

/// The records that the host hands in always have 32-byte keys.
pub proof fn lemma_ledger_wf(accounts: Seq<Account>)
    ensures
        ledger_wf(ledger(accounts)),
{
}

/// What the host needs to create a record that does not exist yet: who pays,
/// and the seeds under which the program signs for the record's address.
#[derive(Clone, Debug, PartialEq, Eq)]
pub struct Creation {
    /// The index of the record that funds the new one.
    pub payer: usize,
    /// The domain tag, the content key if the address has one, and the bump.
    pub seeds: Vec<Vec<u8>>,
}

/// One staged write: the record whose new contents the host is to persist,
/// after creating it where `create` says so. The contents are those of the
/// record at `index` after the transition; the storage to allocate is their
/// length.
#[derive(Clone, Debug, PartialEq, Eq)]
pub struct RecordWrite {
    /// The index of the written record among the records of the request.
    pub index: usize,
    /// `Some` where the record does not exist yet.
    pub create: Option<Creation>,
}

/// What a [`Creation`] holds, as mathematical values.
pub struct CreationView {
    pub payer: usize,
    pub seeds: Seq<Seq<u8>>,
}

/// What a [`RecordWrite`] holds, as mathematical values.
pub struct RecordWriteView {
    pub index: usize,
    pub create: Option<CreationView>,
}

impl View for Creation {
    type V = CreationView;

    open spec fn view(&self) -> CreationView {
        CreationView { payer: self.payer, seeds: self.seeds.deep_view() }
    }
}

impl View for RecordWrite {
    type V = RecordWriteView;

    open spec fn view(&self) -> RecordWriteView {
        RecordWriteView {
            index: self.index,
            create: match self.create {
                Some(c) => Some(c@),
                None => None,
            },
        }
    }
}

/// The staged writes of a transition, each as mathematical values.
pub open spec fn write_views(writes: Seq<RecordWrite>) -> Seq<RecordWriteView> {
    Seq::new(writes.len(), |i: int| writes[i]@)
}

} // verus!
