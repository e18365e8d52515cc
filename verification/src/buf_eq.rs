//! Equality and ordering of fixed-size byte buffers (account IDs, hashes,
//! keylets, amounts), each returning exactly what `==` or lexicographic
//! comparison of the two buffers would.

use vstd::prelude::*;
use core::cmp::Ordering;

verus! {

/// Whether `i` is the first position where `a` and `b` differ.
pub open spec fn first_difference(a: Seq<u8>, b: Seq<u8>, i: int) -> bool {
    &&& 0 <= i < a.len()
    &&& i < b.len()
    &&& a.subrange(0, i) == b.subrange(0, i)
    &&& a[i] != b[i]
}

/// The first position where two equally long buffers differ, if any.
fn first_mismatch(a: &[u8], b: &[u8]) -> (r: Option<usize>)
    requires
        a@.len() == b@.len(),
    ensures
        match r {
            Some(i) => first_difference(a@, b@, i as int),
            None => a@ == b@,
        },
{
    let n = a.len();
    let mut i: usize = 0;
    while i < n
        invariant
            n == a@.len(),
            n == b@.len(),
            i <= n,
            a@.subrange(0, i as int) == b@.subrange(0, i as int),
        decreases n - i,
    {
        if a[i] != b[i] {
            return Some(i);
        }
        assert(a@.subrange(0, i + 1) =~= a@.subrange(0, i as int).push(a@[i as int]));
        assert(b@.subrange(0, i + 1) =~= b@.subrange(0, i as int).push(b@[i as int]));
        i = i + 1;
    }
    assert(a@ =~= a@.subrange(0, n as int));
    assert(b@ =~= b@.subrange(0, n as int));
    None
}

/// Whether `a` and `b` hold the same bytes.
fn bytes_eq(a: &[u8], b: &[u8]) -> (r: bool)
    requires
        a@.len() == b@.len(),
    ensures
        r == (a@ == b@),
{
    first_mismatch(a, b).is_none()
}

/// Whether two 8-byte buffers are equal.
pub fn buf_eq_8(a: &[u8; 8], b: &[u8; 8]) -> (r: bool)
    ensures
        r == (a@ == b@),
{
    bytes_eq(a.as_slice(), b.as_slice())
}

/// Whether two 20-byte buffers (account IDs) are equal.
pub fn buf_eq_20(a: &[u8; 20], b: &[u8; 20]) -> (r: bool)
    ensures
        r == (a@ == b@),
{
    bytes_eq(a.as_slice(), b.as_slice())
}

/// Whether two 32-byte buffers (hashes, state keys) are equal.
pub fn buf_eq_32(a: &[u8; 32], b: &[u8; 32]) -> (r: bool)
    ensures
        r == (a@ == b@),
{
    bytes_eq(a.as_slice(), b.as_slice())
}

/// Whether two 33-byte buffers (public keys) are equal.
pub fn buf_eq_33(a: &[u8; 33], b: &[u8; 33]) -> (r: bool)
    ensures
        r == (a@ == b@),
{
    bytes_eq(a.as_slice(), b.as_slice())
}

/// Whether two 34-byte buffers (keylets) are equal.
pub fn buf_eq_34(a: &[u8; 34], b: &[u8; 34]) -> (r: bool)
    ensures
        r == (a@ == b@),
{
    bytes_eq(a.as_slice(), b.as_slice())
}

/// Whether two 40-byte buffers are equal.
pub fn buf_eq_40(a: &[u8; 40], b: &[u8; 40]) -> (r: bool)
    ensures
        r == (a@ == b@),
{
    bytes_eq(a.as_slice(), b.as_slice())
}

/// Whether two 48-byte buffers (issued amounts) are equal.
pub fn buf_eq_48(a: &[u8; 48], b: &[u8; 48]) -> (r: bool)
    ensures
        r == (a@ == b@),
{
    bytes_eq(a.as_slice(), b.as_slice())
}

/// Whether two 64-byte buffers are equal.
pub fn buf_eq_64(a: &[u8; 64], b: &[u8; 64]) -> (r: bool)
    ensures
        r == (a@ == b@),
{
    bytes_eq(a.as_slice(), b.as_slice())
}

/// Compares two 20-byte buffers (account IDs) lexicographically, byte by
/// byte from the first: the first differing byte decides.
pub fn buf_cmp_20(a: &[u8; 20], b: &[u8; 20]) -> (r: Ordering)
    ensures
        (r == Ordering::Equal) == (a@ == b@),
        r == Ordering::Less ==> exists|i: int| first_difference(a@, b@, i) && a@[i] < b@[i],
        r == Ordering::Greater ==> exists|i: int| first_difference(a@, b@, i) && a@[i] > b@[i],
{
    match first_mismatch(a.as_slice(), b.as_slice()) {
        None => Ordering::Equal,
        Some(i) => {
            if a[i] < b[i] {
                Ordering::Less
            } else {
                Ordering::Greater
            }
        },
    }
}

} // verus!
