//! Derived addresses: where the record of a content key lives.
//!
//! An address is derived from a domain tag, a content key and the program's
//! own id, so that equal content keys give the same address.

use vstd::prelude::*;

verus! {

/// The address that the host derives for `seeds` under `program_id`, with
/// the bump seed that completes it; `None` where no bump seed gives a valid
/// address.
pub uninterp spec fn program_address(seeds: Seq<Seq<u8>>, program_id: Seq<u8>) -> Option<
    (Seq<u8>, u8),
>;

/// Calls `solana_program::pubkey::Pubkey::try_find_program_address`.
///
/// The contract claims only that the call's result is a function of the seeds
/// and the program id: it hashes them with each bump seed from 255 down and
/// returns the first hash that is not a curve point, and `None` where a seed
/// is over-long or no bump seed fits.
#[verifier::external_body]
fn try_find_program_address(seeds: &Vec<Vec<u8>>, program_id: &[u8; 32]) -> (r: Option<
    ([u8; 32], u8),
>)
    ensures
        match r {
            Some((address, bump)) => program_address(seeds.deep_view(), program_id@) == Some(
                (address@, bump),
            ),
            None => program_address(seeds.deep_view(), program_id@) is None,
        },
{
    let seeds: Vec<&[u8]> = seeds.iter().map(|s| s.as_slice()).collect();
    let program_id = solana_program::pubkey::Pubkey::new_from_array(*program_id);
    solana_program::pubkey::Pubkey::try_find_program_address(&seeds, &program_id).map(
        |(address, bump)| (address.to_bytes(), bump),
    )
}

/// The domain tag of the global configuration record: the ASCII of `global-state`.
pub open spec fn global_tag() -> Seq<u8> {
    seq![103u8, 108, 111, 98, 97, 108, 45, 115, 116, 97, 116, 101]
}

/// The domain tag of a note record: the ASCII of `note`.
pub open spec fn note_tag() -> Seq<u8> {
    seq![110u8, 111, 116, 101]
}

/// The seeds of the global configuration record's address.
pub open spec fn global_seeds() -> Seq<Seq<u8>> {
    seq![global_tag()]
}

/// The seeds of the address of the note for `commitment`.
pub open spec fn note_seeds(commitment: Seq<u8>) -> Seq<Seq<u8>> {
    seq![note_tag(), commitment]
}

/// The address of the global configuration record, with its bump seed.
pub open spec fn global_address(program_id: Seq<u8>) -> Option<(Seq<u8>, u8)> {
    program_address(global_seeds(), program_id)
}

/// The address of the note for `commitment`, with its bump seed.
pub open spec fn note_address(program_id: Seq<u8>, commitment: Seq<u8>) -> Option<(Seq<u8>, u8)> {
    program_address(note_seeds(commitment), program_id)
}

/// The seeds under which the program signs for a derived address: the seeds
/// of the address and then the bump seed.
pub open spec fn signer_seeds(seeds: Seq<Seq<u8>>, bump: u8) -> Seq<Seq<u8>> {
    seeds.push(seq![bump])
}

/// A derived address with the seeds that the program signs for it with.
pub struct Derived {
    pub address: [u8; 32],
    pub bump: u8,
    /// The seeds of the address and then the bump seed.
    pub signer_seeds: Vec<Vec<u8>>,
}

impl Derived {
    /// This value is the derivation of `seeds` under `program_id`.
    pub open spec fn is_for(self, seeds: Seq<Seq<u8>>, program_id: Seq<u8>) -> bool {
        &&& program_address(seeds, program_id) == Some((self.address@, self.bump))
        &&& self.signer_seeds.deep_view() == signer_seeds(seeds, self.bump)
    }
}

/// Derives the address for `seeds` and completes the signer seeds.
fn derive(mut seeds: Vec<Vec<u8>>, program_id: &[u8; 32]) -> (r: Option<Derived>)
    ensures
        match r {
            Some(d) => d.is_for(seeds.deep_view(), program_id@),
            None => program_address(seeds.deep_view(), program_id@) is None,
        },
{
    let ghost plain = seeds.deep_view();
    match try_find_program_address(&seeds, program_id) {
        Some((address, bump)) => {
            let mut last: Vec<u8> = Vec::new();
            last.push(bump);
            seeds.push(last);
            assert(seeds.deep_view() =~= signer_seeds(plain, bump)) by {
                assert(last.deep_view() =~= seq![bump]);
            }
            Some(Derived { address, bump, signer_seeds: seeds })
        },
        None => None,
    }
}

/// The derived address of the global configuration record of `program_id`.
pub fn find_global_address(program_id: &[u8; 32]) -> (r: Option<Derived>)
    ensures
        match r {
            Some(d) => d.is_for(global_seeds(), program_id@),
            None => global_address(program_id@) is None,
        },
{
    let tag: Vec<u8> = vec![103u8, 108, 111, 98, 97, 108, 45, 115, 116, 97, 116, 101];
    let mut seeds: Vec<Vec<u8>> = Vec::new();
    seeds.push(tag);
    assert(seeds.deep_view() =~= global_seeds()) by {
        assert(tag.deep_view() =~= global_tag());
    }
    derive(seeds, program_id)
}

/// The derived address of the note for `commitment` under `program_id`.
pub fn find_note_address(program_id: &[u8; 32], commitment: &[u8; 32]) -> (r: Option<Derived>)
    ensures
        match r {
            Some(d) => d.is_for(note_seeds(commitment@), program_id@),
            None => note_address(program_id@, commitment@) is None,
        },
{
    let tag: Vec<u8> = vec![110u8, 111, 116, 101];
    let mut key: Vec<u8> = Vec::new();
    crate::bytes::push_hash(&mut key, commitment);
    let mut seeds: Vec<Vec<u8>> = Vec::new();
    seeds.push(tag);
    seeds.push(key);
    assert(seeds.deep_view() =~= note_seeds(commitment@)) by {
        assert(tag.deep_view() =~= note_tag());
        assert(key.deep_view() =~= commitment@);
    }
    derive(seeds, program_id)
}

} // verus!
