//! The error kinds that a transition can end in.

use vstd::prelude::*;

verus! {

/// Why the record store could not serve a transition.
#[derive(Clone, Copy, Debug, PartialEq, Eq, Structural)]
pub enum StoreError {
    /// Fewer records were handed in than the operation names.
    NotEnoughRecords,
    /// The configuration record is not held by this program.
    ForeignRecord,
    /// A funded record has no storage to take the new contents.
    NoStorage,
}

/// The outcome of a transition that did not go through.
///
/// The first nine kinds keep their numeric codes; later kinds follow them.
#[derive(Clone, Copy, Debug, PartialEq, Eq, Structural)]
pub enum HandCrankedError {
    /// The request bytes are not the encoding of any operation.
    InvalidInstruction,
    /// A record holds bytes that are not the encoding of the expected state.
    InvalidAccountData,
    /// A record's balance is below the rent-exempt minimum.
    NotRentExempt,
    /// The global configuration was set up before.
    AlreadyInitialized,
    /// The caller did not sign the request.
    Unauthorized,
    /// A note for this commitment exists already.
    DuplicateCommitment,
    /// The note was spent before, never existed, or the nullifier does not fit it.
    NullifierAlreadySpent,
    /// The verifier looked at the proof and rejected it.
    InvalidProof,
    /// No verifier is registered for the proof system named in the request.
    UnsupportedProofSystem,
    /// A record's address is not the one derived for its content key.
    InvalidAddress,
    /// The record store failed.
    StoreFailure(StoreError),
}

impl HandCrankedError {
    /// The numeric code under which the host reports this error.
    pub open spec fn spec_code(self) -> u32 {
        match self {
            HandCrankedError::InvalidInstruction => 0,
            HandCrankedError::InvalidAccountData => 1,
            HandCrankedError::NotRentExempt => 2,
            HandCrankedError::AlreadyInitialized => 3,
            HandCrankedError::Unauthorized => 4,
            HandCrankedError::DuplicateCommitment => 5,
            HandCrankedError::NullifierAlreadySpent => 6,
            HandCrankedError::InvalidProof => 7,
            HandCrankedError::UnsupportedProofSystem => 8,
            HandCrankedError::InvalidAddress => 9,
            HandCrankedError::StoreFailure(_) => 10,
        }
    }

    /// The numeric code under which the host reports this error.
    #[verifier::when_used_as_spec(spec_code)]
    pub fn code(self) -> (c: u32)
        ensures
            c == self.spec_code(),
    {
        match self {
            HandCrankedError::InvalidInstruction => 0,
            HandCrankedError::InvalidAccountData => 1,
            HandCrankedError::NotRentExempt => 2,
            HandCrankedError::AlreadyInitialized => 3,
            HandCrankedError::Unauthorized => 4,
            HandCrankedError::DuplicateCommitment => 5,
            HandCrankedError::NullifierAlreadySpent => 6,
            HandCrankedError::InvalidProof => 7,
            HandCrankedError::UnsupportedProofSystem => 8,
            HandCrankedError::InvalidAddress => 9,
            HandCrankedError::StoreFailure(_) => 10,
        }
    }

    /// The text that describes this error kind.
    pub open spec fn spec_message(self) -> Seq<char> {
        match self {
            HandCrankedError::InvalidInstruction => "Invalid instruction"@,
            HandCrankedError::InvalidAccountData => "Invalid account data"@,
            HandCrankedError::NotRentExempt => "Account is not rent exempt"@,
            HandCrankedError::AlreadyInitialized => "State already initialized"@,
            HandCrankedError::Unauthorized => "Unauthorized"@,
            HandCrankedError::DuplicateCommitment => "Note commitment already exists"@,
            HandCrankedError::NullifierAlreadySpent => "Nullifier already spent"@,
            HandCrankedError::InvalidProof => "Invalid proof"@,
            HandCrankedError::UnsupportedProofSystem => "Unsupported proof system"@,
            HandCrankedError::InvalidAddress => "Invalid derived address"@,
            HandCrankedError::StoreFailure(_) => "Record store failure"@,
        }
    }

    /// The text that describes this error kind.
    pub fn message(&self) -> (s: String)
        ensures
            s@ == self.spec_message(),
    {
        match self {
            HandCrankedError::InvalidInstruction => "Invalid instruction".to_owned(),
            HandCrankedError::InvalidAccountData => "Invalid account data".to_owned(),
            HandCrankedError::NotRentExempt => "Account is not rent exempt".to_owned(),
            HandCrankedError::AlreadyInitialized => "State already initialized".to_owned(),
            HandCrankedError::Unauthorized => "Unauthorized".to_owned(),
            HandCrankedError::DuplicateCommitment => "Note commitment already exists".to_owned(),
            HandCrankedError::NullifierAlreadySpent => "Nullifier already spent".to_owned(),
            HandCrankedError::InvalidProof => "Invalid proof".to_owned(),
            HandCrankedError::UnsupportedProofSystem => "Unsupported proof system".to_owned(),
            HandCrankedError::InvalidAddress => "Invalid derived address".to_owned(),
            HandCrankedError::StoreFailure(_) => "Record store failure".to_owned(),
        }
    }
}

} // verus!
