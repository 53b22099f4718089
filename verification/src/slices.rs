//! Sub-slices of byte arrays, taken with std's range indexing.
use vstd::prelude::*;

verus! {

/// `&bytes[..n]`: the first `n` bytes.
#[verifier::external_body]
pub(crate) fn array_prefix<const N: usize>(bytes: &[u8; N], n: usize) -> (r: &[u8])
    requires
        n <= N,
    ensures
        r@ == bytes@.take(n as int),
{
    &bytes[..n]
}

/// `&bytes[from..to]`: the bytes from `from` up to, not including, `to`.
#[verifier::external_body]
pub(crate) fn array_range<const N: usize>(bytes: &[u8; N], from: usize, to: usize) -> (r: &[u8])
    requires
        from <= to <= N,
    ensures
        r@ == bytes@.subrange(from as int, to as int),
{
    &bytes[from..to]
}

/// Whether two byte slices are equal.
pub fn same_bytes(a: &[u8], b: &[u8]) -> (r: bool)
    ensures
        r == (a@ == b@),
{
    if a.len() != b.len() {
        return false;
    }
    let mut i: usize = 0;
    while i < a.len()
        invariant
            a@.len() == b@.len(),
            i <= a@.len(),
            forall|k: int| 0 <= k < i ==> a@[k] == b@[k],
        decreases a@.len() - i,
    {
        if a[i] != b[i] {
            return false;
        }
        i += 1;
    }
    assert(a@ =~= b@);
    true
}

} // verus!
