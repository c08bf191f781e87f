//! The operations of the ledger and their wire encoding.
//!
//! A request is one tag byte and the operation's fields in order. A hash is
//! its 32 bytes; the proof is its length as four little-endian bytes and then
//! its bytes; the proof system is one byte.

use vstd::prelude::*;
use vstd::arithmetic::div_mod::lemma_fundamental_div_mod_converse;
use crate::bytes::{push_hash, read_hash};
use crate::error::HandCrankedError;

verus! {

/// The kind of proof that a private transfer carries.
#[derive(Clone, Copy, Debug, PartialEq, Eq, Structural)]
pub enum ProofSystem {
    Groth16,
    Stark,
}

/// One operation of the ledger with its payload.
#[derive(Clone, Debug, PartialEq, Eq)]
pub enum HandCrankedInstruction {
    /// Set up the global configuration.
    ///
    /// Records: the configuration record, the authority (signer), the system program.
    Initialize,
    /// Create the note of a commitment, without a proof.
    ///
    /// Records: the configuration record, the user (signer), the note, the system program.
    Deposit { commitment: [u8; 32] },
    /// Consume a note under a nullifier and mint one or two new notes, behind a proof.
    ///
    /// Records: the configuration record, the spent note, the first new note,
    /// the second new note, the prover (signer), the system program.
    PrivateTransfer {
        proof_system: ProofSystem,
        proof: Vec<u8>,
        public_inputs_commitment: [u8; 32],
        nullifier: [u8; 32],
        new_commitment_1: [u8; 32],
        /// All zero where the transfer mints one note only.
        new_commitment_2: [u8; 32],
    },
    /// Consume a note on its way out of the pool.
    ///
    /// Records: the configuration record, the note, the recipient (signer), the system program.
    Withdraw { nullifier: [u8; 32] },
}

/// What a [`HandCrankedInstruction`] holds, as mathematical values.
pub enum InstructionView {
    Initialize,
    Deposit { commitment: Seq<u8> },
    PrivateTransfer {
        proof_system: ProofSystem,
        proof: Seq<u8>,
        public_inputs_commitment: Seq<u8>,
        nullifier: Seq<u8>,
        new_commitment_1: Seq<u8>,
        new_commitment_2: Seq<u8>,
    },
    Withdraw { nullifier: Seq<u8> },
}

/// The four little-endian bytes of a length.
pub open spec fn u32_le(n: u32) -> Seq<u8> {
    seq![
        (n % 256) as u8,
        ((n / 256) % 256) as u8,
        ((n / 65536) % 256) as u8,
        (n / 16777216) as u8,
    ]
}

/// The number that the first four bytes of `b` spell, little end first.
pub open spec fn u32_from_le(b: Seq<u8>) -> int {
    b[0] + 256 * b[1] + 65536 * b[2] + 16777216 * b[3]
}

impl ProofSystem {
    /// The byte that names this proof system on the wire.
    pub open spec fn tag(self) -> u8 {
        match self {
            ProofSystem::Groth16 => 0,
            ProofSystem::Stark => 1,
        }
    }
}

impl InstructionView {
    /// Every hash has 32 bytes, and the proof's length fits in its four-byte prefix.
    pub open spec fn wf(self) -> bool {
        match self {
            InstructionView::Initialize => true,
            InstructionView::Deposit { commitment } => commitment.len() == 32,
            InstructionView::PrivateTransfer {
                proof_system,
                proof,
                public_inputs_commitment,
                nullifier,
                new_commitment_1,
                new_commitment_2,
            } => {
                &&& proof.len() <= u32::MAX
                &&& public_inputs_commitment.len() == 32
                &&& nullifier.len() == 32
                &&& new_commitment_1.len() == 32
                &&& new_commitment_2.len() == 32
            },
            InstructionView::Withdraw { nullifier } => nullifier.len() == 32,
        }
    }

    /// The wire encoding of a well-formed operation.
    pub open spec fn bytes(self) -> Seq<u8> {
        match self {
            InstructionView::Initialize => seq![0u8],
            InstructionView::Deposit { commitment } => seq![1u8] + commitment,
            InstructionView::PrivateTransfer {
                proof_system,
                proof,
                public_inputs_commitment,
                nullifier,
                new_commitment_1,
                new_commitment_2,
            } => seq![2u8, proof_system.tag()] + u32_le(proof.len() as u32) + proof
                + public_inputs_commitment + nullifier + new_commitment_1 + new_commitment_2,
            InstructionView::Withdraw { nullifier } => seq![3u8] + nullifier,
        }
    }

    /// The operation that `data` encodes, if it encodes one. Every byte of
    /// `data` belongs to the encoding: nothing may follow it.
    pub open spec fn parse(data: Seq<u8>) -> Option<InstructionView> {
        if data.len() == 1 && data[0] == 0 {
            Some(InstructionView::Initialize)
        } else if data.len() == 33 && data[0] == 1 {
            Some(InstructionView::Deposit { commitment: data.subrange(1, 33) })
        } else if data.len() >= 134 && data[0] == 2 && data[1] <= 1 && data.len() - 134
            == u32_from_le(data.subrange(2, 6)) {
            let end = data.len() - 128;
            Some(
                InstructionView::PrivateTransfer {
                    proof_system: if data[1] == 0 {
                        ProofSystem::Groth16
                    } else {
                        ProofSystem::Stark
                    },
                    proof: data.subrange(6, end),
                    public_inputs_commitment: data.subrange(end, end + 32),
                    nullifier: data.subrange(end + 32, end + 64),
                    new_commitment_1: data.subrange(end + 64, end + 96),
                    new_commitment_2: data.subrange(end + 96, end + 128),
                },
            )
        } else if data.len() == 33 && data[0] == 3 {
            Some(InstructionView::Withdraw { nullifier: data.subrange(1, 33) })
        } else {
            None
        }
    }
}

impl View for HandCrankedInstruction {
    type V = InstructionView;

    open spec fn view(&self) -> InstructionView {
        match self {
            HandCrankedInstruction::Initialize => InstructionView::Initialize,
            HandCrankedInstruction::Deposit { commitment } => InstructionView::Deposit {
                commitment: commitment@,
            },
            HandCrankedInstruction::PrivateTransfer {
                proof_system,
                proof,
                public_inputs_commitment,
                nullifier,
                new_commitment_1,
                new_commitment_2,
            } => InstructionView::PrivateTransfer {
                proof_system: *proof_system,
                proof: proof@,
                public_inputs_commitment: public_inputs_commitment@,
                nullifier: nullifier@,
                new_commitment_1: new_commitment_1@,
                new_commitment_2: new_commitment_2@,
            },
            HandCrankedInstruction::Withdraw { nullifier } => InstructionView::Withdraw {
                nullifier: nullifier@,
            },
        }
    }
}

/// The four little-endian bytes of `n` spell `n`.
pub proof fn lemma_u32_le_round_trip(n: u32)
    ensures
        u32_le(n).len() == 4,
        u32_from_le(u32_le(n)) == n,
{
}

/// Four bytes are the little-endian bytes of the number they spell.
pub proof fn lemma_u32_from_le_round_trip(b: Seq<u8>)
    requires
        b.len() == 4,
    ensures
        0 <= u32_from_le(b) <= u32::MAX,
        u32_le(u32_from_le(b) as u32) == b,
{
    let x = u32_from_le(b);
    let hi = b[2] + 256 * b[3];
    let mid = b[1] + 256 * hi;
    lemma_fundamental_div_mod_converse(x, 256, mid, b[0] as int);
    lemma_fundamental_div_mod_converse(mid, 256, hi, b[1] as int);
    lemma_fundamental_div_mod_converse(x, 65536, hi, b[0] + 256 * b[1]);
    lemma_fundamental_div_mod_converse(hi, 256, b[3] as int, b[2] as int);
    lemma_fundamental_div_mod_converse(x, 16777216, b[3] as int, b[0] + 256 * b[1] + 65536 * b[2]);
}

/// Decoding undoes encoding: the encoding of a well-formed operation decodes
/// to that operation.
pub proof fn lemma_parse_bytes(v: InstructionView)
    requires
        v.wf(),
    ensures
        InstructionView::parse(v.bytes()) == Some(v),
{
    let data = v.bytes();
    match v {
        InstructionView::Initialize => {},
        InstructionView::Deposit { commitment } => {
            assert(data.subrange(1, 33) =~= commitment);
        },
        InstructionView::PrivateTransfer {
            proof_system,
            proof,
            public_inputs_commitment,
            nullifier,
            new_commitment_1,
            new_commitment_2,
        } => {
            let n = proof.len() as u32;
            lemma_u32_le_round_trip(n);
            let end = data.len() - 128;
            assert(data.subrange(6, end) =~= proof);
            assert(data.subrange(end, end + 32) =~= public_inputs_commitment);
            assert(data.subrange(end + 32, end + 64) =~= nullifier);
            assert(data.subrange(end + 64, end + 96) =~= new_commitment_1);
            assert(data.subrange(end + 96, end + 128) =~= new_commitment_2);
        },
        InstructionView::Withdraw { nullifier } => {
            assert(data.subrange(1, 33) =~= nullifier);
        },
    }
}

/// Encoding undoes decoding: a byte string that decodes is the encoding of
/// what it decodes to, so no two byte strings decode to the same operation.
pub proof fn lemma_bytes_parse(data: Seq<u8>)
    requires
        InstructionView::parse(data) is Some,
    ensures
        InstructionView::parse(data).unwrap().wf(),
        InstructionView::parse(data).unwrap().bytes() == data,
{
    if data.len() >= 134 && data[0] == 2 {
        lemma_u32_from_le_round_trip(data.subrange(2, 6));
    }
}

impl ProofSystem {
    /// The byte that names this proof system on the wire.
    pub fn to_byte(self) -> (b: u8)
        ensures
            b == self.tag(),
    {
        match self {
            ProofSystem::Groth16 => 0,
            ProofSystem::Stark => 1,
        }
    }

    /// The proof system that `b` names, if it names one.
    pub fn from_byte(b: u8) -> (r: Option<ProofSystem>)
        ensures
            match r {
                Some(s) => s.tag() == b,
                None => b > 1,
            },
    {
        if b == 0 {
            Some(ProofSystem::Groth16)
        } else if b == 1 {
            Some(ProofSystem::Stark)
        } else {
            None
        }
    }
}

impl HandCrankedInstruction {
    /// Decodes a request.
    ///
    /// `Ok` exactly where `input` is the encoding of an operation, and then
    /// that operation; `InvalidInstruction` for every other input.
    pub fn unpack(input: &[u8]) -> (r: Result<HandCrankedInstruction, HandCrankedError>)
        ensures
            match r {
                Ok(i) => InstructionView::parse(input@) == Some(i@),
                Err(e) => e == HandCrankedError::InvalidInstruction && InstructionView::parse(
                    input@,
                ) is None,
            },
    {
        let len: usize = input.len();
        if len == 0 {
            return Err(HandCrankedError::InvalidInstruction);
        }
        let tag: u8 = input[0];
        if tag == 0 {
            if len != 1 {
                return Err(HandCrankedError::InvalidInstruction);
            }
            Ok(HandCrankedInstruction::Initialize)
        } else if tag == 1 {
            if len != 33 {
                return Err(HandCrankedError::InvalidInstruction);
            }
            Ok(HandCrankedInstruction::Deposit { commitment: read_hash(input, 1) })
        } else if tag == 2 {
            if len < 134 {
                return Err(HandCrankedError::InvalidInstruction);
            }
            let proof_system = match ProofSystem::from_byte(input[1]) {
                Some(s) => s,
                None => {
                    return Err(HandCrankedError::InvalidInstruction);
                },
            };
            let declared: u32 = input[2] as u32 + 256 * (input[3] as u32) + 65536 * (
            input[4] as u32) + 16777216 * (input[5] as u32);
            if (len - 134) as u64 != declared as u64 {
                return Err(HandCrankedError::InvalidInstruction);
            }
            let end: usize = len - 128;
            let mut proof: Vec<u8> = Vec::new();
            let mut i: usize = 6;
            while i < end
                invariant
                    6 <= i <= end,
                    end + 128 == len,
                    len == input@.len(),
                    proof@ == input@.subrange(6, i as int),
                decreases end - i,
            {
                proof.push(input[i]);
                i += 1;
            }
            Ok(
                HandCrankedInstruction::PrivateTransfer {
                    proof_system,
                    proof,
                    public_inputs_commitment: read_hash(input, end),
                    nullifier: read_hash(input, end + 32),
                    new_commitment_1: read_hash(input, end + 64),
                    new_commitment_2: read_hash(input, end + 96),
                },
            )
        } else if tag == 3 {
            if len != 33 {
                return Err(HandCrankedError::InvalidInstruction);
            }
            Ok(HandCrankedInstruction::Withdraw { nullifier: read_hash(input, 1) })
        } else {
            Err(HandCrankedError::InvalidInstruction)
        }
    }

    /// Encodes a request.
    ///
    /// `Ok` with the wire encoding, unless the proof is longer than its
    /// four-byte length prefix can say: then `InvalidInstruction`.
    pub fn pack(&self) -> (r: Result<Vec<u8>, HandCrankedError>)
        ensures
            match r {
                Ok(out) => self@.wf() && out@ == self@.bytes(),
                Err(e) => e == HandCrankedError::InvalidInstruction && !self@.wf(),
            },
    {
        let mut out: Vec<u8> = Vec::new();
        match self {
            HandCrankedInstruction::Initialize => {
                out.push(0);
            },
            HandCrankedInstruction::Deposit { commitment } => {
                out.push(1);
                push_hash(&mut out, commitment);
            },
            HandCrankedInstruction::PrivateTransfer {
                proof_system,
                proof,
                public_inputs_commitment,
                nullifier,
                new_commitment_1,
                new_commitment_2,
            } => {
                let plen: usize = proof.len();
                if plen as u64 > 0xffff_ffff {
                    return Err(HandCrankedError::InvalidInstruction);
                }
                let n: u32 = plen as u32;
                out.push(2);
                out.push(proof_system.to_byte());
                out.push((n % 256) as u8);
                out.push(((n / 256) % 256) as u8);
                out.push(((n / 65536) % 256) as u8);
                out.push((n / 16777216) as u8);
                let ghost head = out@;
                let mut i: usize = 0;
                while i < plen
                    invariant
                        i <= plen,
                        plen == proof@.len(),
                        out@ == head + proof@.subrange(0, i as int),
                    decreases plen - i,
                {
                    out.push(proof[i]);
                    i += 1;
                }
                push_hash(&mut out, public_inputs_commitment);
                push_hash(&mut out, nullifier);
                push_hash(&mut out, new_commitment_1);
                push_hash(&mut out, new_commitment_2);
            },
            HandCrankedInstruction::Withdraw { nullifier } => {
                out.push(3);
                push_hash(&mut out, nullifier);
            },
        }
        Ok(out)
    }
}

} // verus!
