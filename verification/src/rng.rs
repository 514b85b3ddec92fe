use vstd::prelude::*;

verus! {

/// Relies on rand::random_range over `lo..hi`: the thread-local generator
/// returns a value drawn from the half-open range, and panics only when the
/// range is empty, which the precondition rules out. Nothing more is claimed:
/// two calls on the same arguments may differ.
#[verifier::external_body]
pub(crate) fn random_coord(lo: i32, hi: i32) -> (r: i32)
    requires
        lo < hi,
    ensures
        lo <= r < hi,
{
    rand::random_range(lo..hi)
}

} // verus!
