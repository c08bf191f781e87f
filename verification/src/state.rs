//! The two kinds of record that the ledger keeps, and their byte encodings.

use vstd::prelude::*;
use crate::bytes::{bool_byte, push_bool, push_hash, read_hash, zero_hash};

verus! {

/// The length of an encoded [`GlobalState`].
pub const GLOBAL_STATE_LEN: usize = 34;

/// The length of an encoded [`NoteState`].
pub const NOTE_STATE_LEN: usize = 66;

/// The singleton configuration record.
#[derive(Clone, Copy, Debug, PartialEq, Eq)]
pub struct GlobalState {
    /// Set once setup has run; guards against a second setup.
    pub is_initialized: bool,
    /// The schema version of the record.
    pub version: u8,
    /// The identity that ran the setup.
    pub authority: [u8; 32],
}

/// The record of one commitment: the commitment, the nullifier that consumed
/// it, and whether it was consumed.
#[derive(Clone, Copy, Debug, PartialEq, Eq)]
pub struct NoteState {
    /// Set once the note was created.
    pub is_initialized: bool,
    /// The commitment that the note stands for; the content key of its address.
    pub commitment: [u8; 32],
    /// All zero until the note is spent, then the nullifier of the spend.
    pub nullifier: [u8; 32],
    /// Whether the note was consumed. Never goes back to `false`.
    pub spent: bool,
}

/// What a [`GlobalState`] holds, as mathematical values.
pub struct GlobalView {
    pub is_initialized: bool,
    pub version: u8,
    pub authority: Seq<u8>,
}

/// What a [`NoteState`] holds, as mathematical values.
pub struct NoteView {
    pub is_initialized: bool,
    pub commitment: Seq<u8>,
    pub nullifier: Seq<u8>,
    pub spent: bool,
}

impl GlobalView {
    /// The authority is a 32-byte identity.
    pub open spec fn wf(self) -> bool {
        self.authority.len() == 32
    }

    /// The configuration before setup.
    pub open spec fn fresh() -> GlobalView {
        GlobalView { is_initialized: false, version: 1, authority: zero_hash() }
    }

    /// The encoding: the flag, the version, the authority.
    pub open spec fn bytes(self) -> Seq<u8> {
        seq![bool_byte(self.is_initialized), self.version] + self.authority
    }

    /// The configuration that `data` encodes, if it encodes one: 34 bytes, of
    /// which the first is 0 or 1.
    pub open spec fn parse(data: Seq<u8>) -> Option<GlobalView> {
        if data.len() == 34 && data[0] <= 1 {
            Some(
                GlobalView {
                    is_initialized: data[0] == 1,
                    version: data[1],
                    authority: data.subrange(2, 34),
                },
            )
        } else {
            None
        }
    }

    /// Decoding undoes encoding.
    pub proof fn lemma_parse_bytes(self)
        requires
            self.wf(),
        ensures
            self.bytes().len() == 34,
            GlobalView::parse(self.bytes()) == Some(self),
    {
        assert(self.bytes().subrange(2, 34) =~= self.authority);
    }

    /// Encoding undoes decoding: only one byte string decodes to a given configuration.
    pub proof fn lemma_bytes_parse(data: Seq<u8>)
        requires
            GlobalView::parse(data) is Some,
        ensures
            GlobalView::parse(data).unwrap().wf(),
            GlobalView::parse(data).unwrap().bytes() == data,
    {
    }
}

impl NoteView {
    /// Commitment and nullifier are 32-byte hashes.
    pub open spec fn wf(self) -> bool {
        self.commitment.len() == 32 && self.nullifier.len() == 32
    }

    /// The note that stands in for a record without contents.
    pub open spec fn fresh() -> NoteView {
        NoteView {
            is_initialized: false,
            commitment: zero_hash(),
            nullifier: zero_hash(),
            spent: false,
        }
    }

    /// The unspent note that a deposit or a mint creates for `commitment`.
    pub open spec fn minted(commitment: Seq<u8>) -> NoteView {
        NoteView { is_initialized: true, commitment, nullifier: zero_hash(), spent: false }
    }

    /// This note after it was consumed under `nullifier`.
    pub open spec fn consumed(self, nullifier: Seq<u8>) -> NoteView {
        NoteView { nullifier, spent: true, ..self }
    }

    /// The encoding: the flag, the commitment, the nullifier, the spent flag.
    pub open spec fn bytes(self) -> Seq<u8> {
        seq![bool_byte(self.is_initialized)] + self.commitment + self.nullifier + seq![
            bool_byte(self.spent),
        ]
    }

    /// The note that `data` encodes, if it encodes one: 66 bytes, of which the
    /// first and the last are 0 or 1.
    pub open spec fn parse(data: Seq<u8>) -> Option<NoteView> {
        if data.len() == 66 && data[0] <= 1 && data[65] <= 1 {
            Some(
                NoteView {
                    is_initialized: data[0] == 1,
                    commitment: data.subrange(1, 33),
                    nullifier: data.subrange(33, 65),
                    spent: data[65] == 1,
                },
            )
        } else {
            None
        }
    }

    /// Decoding undoes encoding.
    pub proof fn lemma_parse_bytes(self)
        requires
            self.wf(),
        ensures
            self.bytes().len() == 66,
            NoteView::parse(self.bytes()) == Some(self),
    {
        assert(self.bytes().subrange(1, 33) =~= self.commitment);
        assert(self.bytes().subrange(33, 65) =~= self.nullifier);
    }

    /// Encoding undoes decoding: only one byte string decodes to a given note.
    pub proof fn lemma_bytes_parse(data: Seq<u8>)
        requires
            NoteView::parse(data) is Some,
        ensures
            NoteView::parse(data).unwrap().wf(),
            NoteView::parse(data).unwrap().bytes() == data,
    {
    }
}

impl View for GlobalState {
    type V = GlobalView;

    open spec fn view(&self) -> GlobalView {
        GlobalView {
            is_initialized: self.is_initialized,
            version: self.version,
            authority: self.authority@,
        }
    }
}

impl View for NoteState {
    type V = NoteView;

    open spec fn view(&self) -> NoteView {
        NoteView {
            is_initialized: self.is_initialized,
            commitment: self.commitment@,
            nullifier: self.nullifier@,
            spent: self.spent,
        }
    }
}

impl GlobalState {
    /// The schema version that setup writes.
    pub const VERSION: u8 = 1;

    /// Encodes the configuration.
    pub fn pack(&self) -> (out: Vec<u8>)
        ensures
            out@ == self@.bytes(),
            out@.len() == GLOBAL_STATE_LEN,
    {
        let mut out: Vec<u8> = Vec::new();
        push_bool(&mut out, self.is_initialized);
        out.push(self.version);
        push_hash(&mut out, &self.authority);
        out
    }

    /// Decodes a configuration; `None` where `data` encodes none.
    pub fn unpack(data: &[u8]) -> (r: Option<GlobalState>)
        ensures
            match r {
                Some(g) => GlobalView::parse(data@) == Some(g@),
                None => GlobalView::parse(data@) is None,
            },
    {
        if data.len() != GLOBAL_STATE_LEN || data[0] > 1 {
            return None;
        }
        Some(
            GlobalState {
                is_initialized: data[0] == 1,
                version: data[1],
                authority: read_hash(data, 2),
            },
        )
    }
}

impl NoteState {
    /// Encodes the note.
    pub fn pack(&self) -> (out: Vec<u8>)
        ensures
            out@ == self@.bytes(),
            out@.len() == NOTE_STATE_LEN,
    {
        let mut out: Vec<u8> = Vec::new();
        push_bool(&mut out, self.is_initialized);
        push_hash(&mut out, &self.commitment);
        push_hash(&mut out, &self.nullifier);
        push_bool(&mut out, self.spent);
        out
    }

    /// Decodes a note; `None` where `data` encodes none.
    pub fn unpack(data: &[u8]) -> (r: Option<NoteState>)
        ensures
            match r {
                Some(n) => NoteView::parse(data@) == Some(n@),
                None => NoteView::parse(data@) is None,
            },
    {
        if data.len() != NOTE_STATE_LEN || data[0] > 1 || data[65] > 1 {
            return None;
        }
        Some(
            NoteState {
                is_initialized: data[0] == 1,
                commitment: read_hash(data, 1),
                nullifier: read_hash(data, 33),
                spent: data[65] == 1,
            },
        )
    }
}

impl Default for GlobalState {
    /// The configuration before setup: not initialized, current version, no authority.
    fn default() -> (g: GlobalState)
        ensures
            g@ == GlobalView::fresh(),
    {
        let g = GlobalState {
            is_initialized: false,
            version: GlobalState::VERSION,
            authority: [0u8; 32],
        };
        assert(g.authority@ =~= zero_hash());
        g
    }
}

impl Default for NoteState {
    /// The note of a record without contents: not initialized, all zero, unspent.
    fn default() -> (n: NoteState)
        ensures
            n@ == NoteView::fresh(),
    {
        let n = NoteState {
            is_initialized: false,
            commitment: [0u8; 32],
            nullifier: [0u8; 32],
            spent: false,
        };
        assert(n.nullifier@ =~= zero_hash());
        n
    }
}

} // verus!
