//! Fixed-width byte strings: the 32-byte hashes and addresses of the ledger.

use vstd::prelude::*;

verus! {

/// The hash of 32 zero bytes: the sentinel for "no nullifier" and "no second note".
pub open spec fn zero_hash() -> Seq<u8> {
    Seq::new(32, |i: int| 0u8)
}

/// The byte that encodes a flag.
pub open spec fn bool_byte(b: bool) -> u8 {
    if b {
        1
    } else {
        0
    }
}

/// Whether two hashes hold the same bytes.
pub fn hash_eq(a: &[u8; 32], b: &[u8; 32]) -> (same: bool)
    ensures
        same == (a@ == b@),
{
    let mut i: usize = 0;
    while i < 32
        invariant
            i <= 32,
            forall|j: int| 0 <= j < i ==> a@[j] == b@[j],
        decreases 32 - i,
    {
        if a[i] != b[i] {
            return false;
        }
        i += 1;
    }
    assert(a@ =~= b@);
    true
}

/// Whether a hash is the all-zero sentinel.
pub fn is_zero_hash(a: &[u8; 32]) -> (zero: bool)
    ensures
        zero == (a@ == zero_hash()),
{
    let mut i: usize = 0;
    while i < 32
        invariant
            i <= 32,
            forall|j: int| 0 <= j < i ==> a@[j] == 0,
        decreases 32 - i,
    {
        if a[i] != 0 {
            return false;
        }
        i += 1;
    }
    assert(a@ =~= zero_hash());
    true
}

/// The hashes of a list, each as its bytes.
pub open spec fn hashes(list: Seq<[u8; 32]>) -> Seq<Seq<u8>> {
    Seq::new(list.len(), |i: int| list[i]@)
}

/// Whether `h` is among the hashes of `list`.
pub fn contains_hash(list: &Vec<[u8; 32]>, h: &[u8; 32]) -> (found: bool)
    ensures
        found == hashes(list@).contains(h@),
{
    let mut i: usize = 0;
    while i < list.len()
        invariant
            i <= list.len(),
            forall|j: int| 0 <= j < i ==> hashes(list@)[j] != h@,
        decreases list.len() - i,
    {
        if hash_eq(&list[i], h) {
            assert(hashes(list@)[i as int] == h@);
            return true;
        }
        i += 1;
    }
    false
}

/// The 32 bytes of `data` that start at `offset`.
pub fn read_hash(data: &[u8], offset: usize) -> (h: [u8; 32])
    requires
        offset + 32 <= data@.len(),
    ensures
        h@ == data@.subrange(offset as int, offset + 32),
{
    let n: usize = data.len();
    let mut h: [u8; 32] = [0u8; 32];
    let mut i: usize = 0;
    while i < 32
        invariant
            i <= 32,
            n == data@.len(),
            offset + 32 <= n,
            forall|j: int| 0 <= j < i ==> h@[j] == data@[offset + j],
        decreases 32 - i,
    {
        h[i] = data[offset + i];
        i += 1;
    }
    h
}

/// Appends the 32 bytes of `h` to `out`.
pub fn push_hash(out: &mut Vec<u8>, h: &[u8; 32])
    ensures
        final(out)@ == old(out)@ + h@,
{
    let ghost before = out@;
    let mut i: usize = 0;
    while i < 32
        invariant
            i <= 32,
            out@ == before + h@.subrange(0, i as int),
        decreases 32 - i,
    {
        out.push(h[i]);
        i += 1;
    }
}

/// Appends the encoding of a flag to `out`.
pub fn push_bool(out: &mut Vec<u8>, b: bool)
    ensures
        final(out)@ == old(out)@.push(bool_byte(b)),
{
    if b {
        out.push(1);
    } else {
        out.push(0);
    }
}

} // verus!
