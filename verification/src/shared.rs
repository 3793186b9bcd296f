//! Shared ownership of the adapters.
use std::sync::Arc;
use vstd::prelude::*;

verus! {

/// `Arc::clone`: another handle to the same value. Claimed: the handle holds the
/// value that `a` holds (the standard library documents that the clone points to
/// the same allocation).
#[verifier::external_body]
pub(crate) fn share<T>(a: &Arc<T>) -> (r: Arc<T>)
    ensures
        r == *a,
{
    Arc::clone(a)
}

} // verus!
