//! Comparison of texts byte by byte.
use crate::slices::same_bytes;
use vstd::prelude::*;
use vstd::string::StringSliceAdditionalSpecFns;

verus! {

/// Whether two texts consist of the same bytes.
pub fn same_text(a: &str, b: &str) -> (r: bool)
    ensures
        r == (a.spec_bytes() == b.spec_bytes()),
{
    same_bytes(a.as_bytes(), b.as_bytes())
}

} // verus!
