//! Checks on what the host reports of a record.

use vstd::prelude::*;
use crate::error::HandCrankedError;

verus! {

/// Ensures that a record is rent exempt: that its balance is no less than
/// the minimum that the host asks for storage of its size.
///
/// `Ok` exactly where `lamports >= minimum_balance`; `NotRentExempt` otherwise.
pub fn assert_rent_exempt(lamports: u64, minimum_balance: u64) -> (r: Result<(), HandCrankedError>)
    ensures
        r == (if lamports >= minimum_balance {
            Ok::<(), HandCrankedError>(())
        } else {
            Err(HandCrankedError::NotRentExempt)
        }),
{
    if lamports < minimum_balance {
        return Err(HandCrankedError::NotRentExempt);
    }
    Ok(())
}

} // verus!
