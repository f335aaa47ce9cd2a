//! Fixed-length byte blobs: copying between slices, arrays and vectors, and
//! comparing without an early exit.

use vstd::prelude::*;

verus! {

/// Copies a slice of exactly `N` bytes into an array; gives `None` for any
/// other length.
pub fn to_array<const N: usize>(bytes: &[u8]) -> (r: Option<[u8; N]>)
    ensures
        r is Some <==> bytes@.len() == N,
        r matches Some(a) ==> a@ == bytes@,
{
    if bytes.len() != N {
        return None;
    }
    let mut out = [0u8; N];
    let mut i: usize = 0;
    while i < N
        invariant
            i <= N,
            bytes@.len() == N,
            out@.len() == N,
            forall|j: int| 0 <= j < i ==> out@[j] == bytes@[j],
        decreases N - i,
    {
        out[i] = bytes[i];
        i = i + 1;
    }
    assert(out@ =~= bytes@);
    Some(out)
}

/// Copies the bytes of a slice into a fresh vector.
pub fn to_vec(bytes: &[u8]) -> (v: Vec<u8>)
    ensures
        v@ == bytes@,
{
    let mut v: Vec<u8> = Vec::new();
    let mut i: usize = 0;
    while i < bytes.len()
        invariant
            i <= bytes@.len(),
            v@ == bytes@.take(i as int),
        decreases bytes@.len() - i,
    {
        v.push(bytes[i]);
        i = i + 1;
        assert(v@ =~= bytes@.take(i as int));
    }
    assert(bytes@.take(bytes@.len() as int) =~= bytes@);
    v
}

/// Whether two byte strings are the same. Strings of equal length are
/// compared in full: the time taken does not tell where they first differ.
pub fn bytes_equal(a: &[u8], b: &[u8]) -> (same: bool)
    ensures
        same == (a@ == b@),
{
    if a.len() != b.len() {
        return false;
    }
    let mut diff: u8 = 0;
    let mut i: usize = 0;
    assert(a@.take(0) =~= b@.take(0));
    while i < a.len()
        invariant
            i <= a@.len(),
            a@.len() == b@.len(),
            diff == 0 <==> a@.take(i as int) == b@.take(i as int),
        decreases a@.len() - i,
    {
        let x = a[i];
        let y = b[i];
        let ghost before = diff;
        diff = diff | (x ^ y);
        assert((before | (x ^ y)) == 0 <==> (before == 0 && x == y)) by (bit_vector);
        proof {
            let n = i as int;
            assert(a@.take(n + 1) =~= a@.take(n).push(a@[n]));
            assert(b@.take(n + 1) =~= b@.take(n).push(b@[n]));
            if a@.take(n + 1) == b@.take(n + 1) {
                assert(a@.take(n + 1)[n] == b@.take(n + 1)[n]);
                assert(a@.take(n) =~= a@.take(n + 1).take(n));
                assert(b@.take(n) =~= b@.take(n + 1).take(n));
            }
        }
        i = i + 1;
    }
    assert(a@.take(a@.len() as int) =~= a@);
    assert(b@.take(b@.len() as int) =~= b@);
    diff == 0
}

} // verus!
